use vstd::prelude::*;

verus! {

/// A failure produced while rendering a template. Rendering failures are
/// surfaced to the caller unchanged: nothing in this crate retries or
/// translates them.
#[derive(Clone, Copy, Debug, PartialEq, Eq, Structural)]
pub enum RenderError {
    /// The named template is absent from the registry at render time.
    TemplateNotFound,
    /// Template evaluation failed: a syntax error in the template source, an
    /// unresolved reference, or a type mismatch between context and template.
    EvaluationFailed,
}

} // verus!
