use vstd::prelude::*;

pub mod context;
pub mod engine;
pub mod error;
pub mod extensions;
pub mod prelude;
pub mod registry;
pub mod sink;
pub mod strmap;
pub mod template;

use crate::error::RenderError;
use crate::sink::Sink;

verus! {

/// The renderable capability: a value that knows how to render its own
/// content into a byte sink, or fail with a rendering error.
///
/// `render_spec` is the mathematical content of the capability: the byte
/// sequence the value renders to, or the error rendering stops with. It
/// depends on the value alone, so rendering is deterministic and never
/// mutates the value. `minijinja` is the executable side: on success it has
/// appended exactly the rendered bytes to the sink; on failure the error is
/// returned unchanged, and whatever was already in the sink is still there
/// (a failing render may leave the sink partially extended, never rewritten).
pub trait Shrine {
    /// The bytes this value renders to, or the error its rendering fails
    /// with.
    spec fn render_spec(&self) -> Result<Seq<u8>, RenderError>;

    /// Renders this value's content into `writer`.
    fn minijinja(&self, writer: &mut Sink) -> (r: Result<(), RenderError>)
        ensures
            match self.render_spec() {
                Ok(bytes) => r is Ok && final(writer)@ == old(writer)@ + bytes,
                Err(e) => r == Result::<(), RenderError>::Err(e) && old(writer)@.is_prefix_of(
                    final(writer)@,
                ),
            },
    ;
}

/// The render adapter: a lightweight wrapper around a borrowed renderable
/// value, exposing its rendering as a generic "produce bytes into a sink"
/// call. It holds no state of its own and is a pure pass-through: no
/// buffering, no retry, no error translation.
pub struct Katana<'a, T: Shrine>(pub &'a T);

impl<'a, T: Shrine> Katana<'a, T> {
    /// What the wrapped value renders to: the adapter adds nothing and takes
    /// nothing away.
    pub open spec fn render_spec(&self) -> Result<Seq<u8>, RenderError> {
        self.0.render_spec()
    }

    /// Produces the wrapped value's rendered bytes into `writer` by
    /// forwarding to its `minijinja` call, with identical failure semantics.
    pub fn anvil(&self, writer: &mut Sink) -> (r: Result<(), RenderError>)
        ensures
            match self.render_spec() {
                Ok(bytes) => r is Ok && final(writer)@ == old(writer)@ + bytes,
                Err(e) => r == Result::<(), RenderError>::Err(e) && old(writer)@.is_prefix_of(
                    final(writer)@,
                ),
            },
    {
        self.0.minijinja(writer)
    }
}

/// Law: rendering the same value twice, into two independent sinks, yields
/// byte-identical output. Every successful render appends exactly the bytes
/// of `render_spec`, and `render_spec` depends on the value alone, so there
/// is no hidden mutable state that could make two renders differ.
pub proof fn lemma_render_deterministic<T: Shrine>(v: &T, first: Seq<u8>, second: Seq<u8>)
    requires
        v.render_spec() matches Ok(b1) && first == b1,
        v.render_spec() matches Ok(b2) && second == b2,
    ensures
        first == second,
{
}

} // verus!
