use vstd::prelude::*;

use crate::error::RenderError;
use crate::extensions::OpKind;
use crate::sink::Sink;
use crate::{Katana, Shrine};

verus! {

/// A single-use append operation: renders its wrapped value onto the end of
/// a destination that must already exist. The file work itself belongs to
/// the forging collaborator; this type binds the render adapter to the
/// append contract.
pub struct Append<'a, T: Shrine> {
    pub katana: Katana<'a, T>,
}

/// The recipe for building an append operation from a renderable value.
pub trait MinijinjaAppendExt<'a, T: Shrine>: Sized {
    /// Holds when the built operation wraps exactly `template`.
    spec fn wraps(self, template: &'a T) -> bool;

    /// Wraps `template` in a fresh render adapter bound to an append
    /// operation. Pure and total: no file is touched.
    fn minijinja(template: &'a T) -> (r: Self)
        ensures
            r.wraps(template),
    ;
}

impl<'a, T: Shrine> MinijinjaAppendExt<'a, T> for Append<'a, T> {
    open spec fn wraps(self, template: &'a T) -> bool {
        self.katana.0 == template
    }

    fn minijinja(template: &'a T) -> (r: Self) {
        Append { katana: Katana(template) }
    }
}

/// Builds an append operation around `template`: pure, total, no file is
/// touched until the operation is forged.
pub fn append<'a, T: Shrine>(template: &'a T) -> (r: Append<'a, T>)
    ensures
        r.katana.0 == template,
{
    Append::minijinja(template)
}

impl<'a, T: Shrine> Append<'a, T> {
    /// This operation's existence contract: append.
    pub fn kind(&self) -> (r: OpKind)
        ensures
            r == OpKind::Append,
    {
        OpKind::Append
    }

    /// Renders the wrapped value into `writer`, consuming the operation: an
    /// operation is forged at most once. On success exactly the rendered
    /// bytes follow what the sink already held, with no separator in
    /// between.
    pub fn produce(self, writer: &mut Sink) -> (r: Result<(), RenderError>)
        ensures
            match self.katana.render_spec() {
                Ok(bytes) => r is Ok && final(writer)@ == old(writer)@ + bytes,
                Err(e) => r == Result::<(), RenderError>::Err(e) && old(writer)@.is_prefix_of(
                    final(writer)@,
                ),
            },
    {
        self.katana.anvil(writer)
    }
}

} // verus!
