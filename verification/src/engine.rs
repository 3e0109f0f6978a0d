use vstd::prelude::*;

use crate::context::Context;
use crate::error::RenderError;
use crate::sink::Sink;
use crate::strmap::{StrPair, map_of, unique_keys};

verus! {

/// The templating engine's error type, carried through the trusted boundary
/// opaquely: this crate never looks inside it, it only maps it to a
/// `RenderError` of its own.
#[verifier::external_type_specification]
#[verifier::external_body]
pub struct ExError(minijinja::Error);

/// The bytes the templating engine renders a template source to under a
/// context, or nothing where evaluation fails. The outcome depends on the
/// source and the context alone, so it bears a name rather than a
/// re-statement of the engine's evaluation rules.
pub uninterp spec fn eval_of(source: Seq<char>, ctx: Map<Seq<char>, Seq<char>>) -> Option<Seq<u8>>;

/// Relies on minijinja's `Environment::add_template`,
/// `Environment::get_template` and `Template::render`: evaluating a template
/// source against a map of string bindings is a function of the source and
/// the bindings alone, succeeding or failing deterministically.
#[verifier::external_body]
fn eval_template(source: &str, pairs: &Vec<StrPair>) -> (r: Result<Vec<u8>, minijinja::Error>)
    requires
        unique_keys(pairs@),
    ensures
        (r is Ok) == (eval_of(source@, map_of(pairs@)) is Some),
        r matches Ok(v) ==> v@ == eval_of(source@, map_of(pairs@)).unwrap(),
{
    let mut env = minijinja::Environment::new();
    env.add_template("inline", source)?;
    let tmpl = env.get_template("inline")?;
    let ctx: std::collections::BTreeMap<&str, &str> = pairs.iter().map(
        |p| (p.key.as_str(), p.value.as_str()),
    ).collect();
    Ok(tmpl.render(&ctx)?.into_bytes())
}

/// Evaluates the template `source` under `ctx` and streams the result into
/// `writer`. On success exactly the rendered bytes are appended; on failure
/// the sink is untouched and the evaluation failure is surfaced unchanged.
pub fn render_source(source: &str, ctx: &Context, writer: &mut Sink) -> (r: Result<
    (),
    RenderError,
>)
    ensures
        match eval_of(source@, ctx@) {
            Some(bytes) => r is Ok && final(writer)@ == old(writer)@ + bytes,
            None => r == Result::<(), RenderError>::Err(RenderError::EvaluationFailed)
                && final(writer)@ == old(writer)@,
        },
{
    let pairs = ctx.pairs();
    match eval_template(source, pairs) {
        Ok(bytes) => {
            writer.write_bytes(bytes.as_slice());
            Ok(())
        },
        Err(_) => Err(RenderError::EvaluationFailed),
    }
}

} // verus!
