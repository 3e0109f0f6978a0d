use vstd::prelude::*;

use crate::error::RenderError;
use crate::extensions::OpKind;
use crate::sink::Sink;
use crate::{Katana, Shrine};

verus! {

/// A single-use create operation: renders its wrapped value into a
/// destination that must not exist yet. The file work itself belongs to the
/// forging collaborator; this type binds the render adapter to the create
/// contract.
pub struct Generate<'a, T: Shrine> {
    pub katana: Katana<'a, T>,
}

/// The recipe for building a create operation from a renderable value.
pub trait MinijinjaGenerateExt<'a, T: Shrine>: Sized {
    /// Holds when the built operation wraps exactly `template`.
    spec fn wraps(self, template: &'a T) -> bool;

    /// Wraps `template` in a fresh render adapter bound to a create
    /// operation. Pure and total: no file is touched.
    fn minijinja(template: &'a T) -> (r: Self)
        ensures
            r.wraps(template),
    ;
}

impl<'a, T: Shrine> MinijinjaGenerateExt<'a, T> for Generate<'a, T> {
    open spec fn wraps(self, template: &'a T) -> bool {
        self.katana.0 == template
    }

    fn minijinja(template: &'a T) -> (r: Self) {
        Generate { katana: Katana(template) }
    }
}

/// Builds a create operation around `template`: pure, total, no file is
/// touched until the operation is forged.
pub fn generate<'a, T: Shrine>(template: &'a T) -> (r: Generate<'a, T>)
    ensures
        r.katana.0 == template,
{
    Generate::minijinja(template)
}

impl<'a, T: Shrine> Generate<'a, T> {
    /// This operation's existence contract: create fresh.
    pub fn kind(&self) -> (r: OpKind)
        ensures
            r == OpKind::Create,
    {
        OpKind::Create
    }

    /// Renders the wrapped value into `writer`, consuming the operation: an
    /// operation is forged at most once. Into an empty sink, success leaves
    /// exactly the rendered bytes.
    pub fn produce(self, writer: &mut Sink) -> (r: Result<(), RenderError>)
        ensures
            match self.katana.render_spec() {
                Ok(bytes) => r is Ok && final(writer)@ == old(writer)@ + bytes,
                Err(e) => r == Result::<(), RenderError>::Err(e) && old(writer)@.is_prefix_of(
                    final(writer)@,
                ),
            },
    {
        self.katana.anvil(writer)
    }
}

} // verus!
