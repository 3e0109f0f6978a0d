use vstd::prelude::*;

use crate::Shrine;
use crate::context::Context;
use crate::engine::{eval_of, render_source};
use crate::error::RenderError;
use crate::registry::TemplateRegistry;
use crate::sink::Sink;

verus! {

/// A renderable backed by a named template: the reusable recipe for
/// satisfying the renderable capability without a hand-written render body.
/// Rendering looks `name` up in the registry — failing with
/// `TemplateNotFound` where it is absent — then evaluates the template
/// against `context` and streams the result into the sink, failing with
/// `EvaluationFailed` where evaluation does. Nothing is cached between
/// renders: each render re-evaluates the template from scratch.
pub struct TemplateShrine<'a> {
    pub registry: &'a TemplateRegistry,
    pub name: String,
    pub context: Context,
}

impl<'a> Shrine for TemplateShrine<'a> {
    open spec fn render_spec(&self) -> Result<Seq<u8>, RenderError> {
        if !self.registry@.contains_key(self.name@) {
            Err(RenderError::TemplateNotFound)
        } else {
            match eval_of(self.registry@[self.name@], self.context@) {
                Some(bytes) => Ok(bytes),
                None => Err(RenderError::EvaluationFailed),
            }
        }
    }

    fn minijinja(&self, writer: &mut Sink) -> (r: Result<(), RenderError>) {
        let source = match self.registry.get_source(&self.name) {
            Ok(source) => source,
            Err(e) => {
                return Err(e);
            },
        };
        render_source(source.as_str(), &self.context, writer)
    }
}

/// Law: a template name absent from the registry renders to
/// `TemplateNotFound` — never a different error — whatever the context
/// supplies.
pub proof fn lemma_absent_template_not_found<'a>(t: TemplateShrine<'a>)
    requires
        !t.registry@.contains_key(t.name@),
    ensures
        t.render_spec() == Result::<Seq<u8>, RenderError>::Err(RenderError::TemplateNotFound),
{
}

} // verus!
