use vstd::prelude::*;

pub mod append;
pub mod generate;

use crate::error::RenderError;

verus! {

/// The existence contract a file operation carries: create demands a fresh
/// destination, append demands an existing one.
#[derive(Clone, Copy, Debug, PartialEq, Eq, Structural)]
pub enum OpKind {
    /// The destination must not exist yet.
    Create,
    /// The destination must already exist.
    Append,
}

/// A failure of forging rendered content into a destination: either the
/// destination violated the operation's existence contract, or rendering
/// itself failed and is propagated unchanged.
#[derive(Clone, Copy, Debug, PartialEq, Eq, Structural)]
pub enum ForgeError {
    /// Rendering failed; the error is surfaced verbatim.
    Render(RenderError),
    /// A create operation found its destination already present.
    TargetAlreadyExists,
    /// An append operation found no destination to append to.
    TargetMissing,
}

/// Law & decision: whether a destination's existence admits an operation.
/// A create against an existing destination fails with `TargetAlreadyExists`;
/// an append against a missing one fails with `TargetMissing`; everything
/// else is admitted. The file-forging collaborator consults this before any
/// byte is committed, so a refused operation leaves the file system as it
/// found it.
pub fn existence_check(kind: OpKind, target_exists: bool) -> (r: Result<(), ForgeError>)
    ensures
        match kind {
            OpKind::Create => if target_exists {
                r == Result::<(), ForgeError>::Err(ForgeError::TargetAlreadyExists)
            } else {
                r is Ok
            },
            OpKind::Append => if target_exists {
                r is Ok
            } else {
                r == Result::<(), ForgeError>::Err(ForgeError::TargetMissing)
            },
        },
{
    match kind {
        OpKind::Create => {
            if target_exists {
                Err(ForgeError::TargetAlreadyExists)
            } else {
                Ok(())
            }
        },
        OpKind::Append => {
            if target_exists {
                Ok(())
            } else {
                Err(ForgeError::TargetMissing)
            }
        },
    }
}

} // verus!
