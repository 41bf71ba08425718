//! A project-scaffolding library: given the contents of a template directory
//! and a set of user-supplied parameter values, it classifies every template
//! entry (copy verbatim, render through the template engine, or exclude),
//! resolves parameter values with templated defaults, and produces the plan
//! and the rendered texts that a thin driver then writes to disk.

use vstd::prelude::*;

pub mod config;
pub mod context;
pub mod params;
pub mod plan;
pub mod render;

verus! {

use crate::config::TemplateParameterInfo;
use crate::params::err_matches;
use crate::params::resolve_params_spec;
use crate::params::resolve_parameters;
use crate::render::render_jobs_spec;
use crate::render::render_all;

/// An error of the scaffolding pipeline. Every error is fatal to the run.
#[derive(Debug)]
pub enum ScaffoldError {
    /// A declared parameter got empty input and has no default.
    MissingParameter(String),
    /// The template engine rejected an expression or a template
    /// (for example an undefined reference); the payload is its report.
    Render(String),
}

/// The message text of a missing-parameter error, as shown to the user.
pub open spec fn missing_param_msg(name: Seq<char>) -> Seq<char> {
    "property '"@ + name + "' is missed"@
}

impl ScaffoldError {
    /// A human-readable message; an error always names the offending
    /// parameter or carries the engine's own report.
    pub fn message(&self) -> (r: String)
        ensures
            self matches ScaffoldError::MissingParameter(n) ==> r@ == missing_param_msg(n@),
            self matches ScaffoldError::Render(m) ==> r@ == m@,
    {
        match self {
            ScaffoldError::MissingParameter(name) => {
                let mut s = String::from_str("property '");
                s.append(name.as_str());
                s.append("' is missed");
                s
            },
            ScaffoldError::Render(m) => m.clone(),
        }
    }
}

/// The whole deferred pipeline on plain values: every declared parameter is
/// resolved against its simulated input line, then every queued render job
/// is rendered against the resolved bindings and the facts. `None` when any
/// parameter or any render job fails: no partial output is defined.
pub open spec fn pipeline_outputs(
    params: Seq<(String, TemplateParameterInfo)>,
    inputs: Seq<Seq<char>>,
    facts: Seq<(Seq<char>, Seq<char>)>,
    sources: Seq<(Seq<char>, Seq<char>)>,
    jobs: Seq<(Seq<char>, Seq<char>)>,
) -> Option<Seq<(Seq<char>, Seq<char>)>> {
    match resolve_params_spec(params, inputs, facts) {
        Err(e) => None,
        Ok(bindings) => render_jobs_spec(sources, jobs, 0, bindings, facts),
    }
}

/// Resolves every parameter from the given input lines and renders every
/// queued job, in that order; the first failure aborts before any rendered
/// text is handed out, and the error identifies it: the missing parameter
/// by name, or a render failure of a default expression or a template.
pub fn run_pipeline(
    params: &Vec<(String, TemplateParameterInfo)>,
    inputs: &Vec<String>,
    facts: &Vec<(String, String)>,
    sources: &Vec<(String, String)>,
    jobs: &Vec<(String, String)>,
) -> (r: Result<Vec<(String, String)>, ScaffoldError>)
    ensures
        r matches Ok(v) ==> pipeline_outputs(
            params@,
            inputs.deep_view(),
            facts.deep_view(),
            sources.deep_view(),
            jobs.deep_view(),
        ) == Some(v.deep_view()),
        r is Err ==> pipeline_outputs(
            params@,
            inputs.deep_view(),
            facts.deep_view(),
            sources.deep_view(),
            jobs.deep_view(),
        ) is None,
        r matches Err(e) ==> match resolve_params_spec(params@, inputs.deep_view(), facts.deep_view()) {
            Err(pe) => err_matches(e, pe),
            Ok(bindings) => render_jobs_spec(
                sources.deep_view(),
                jobs.deep_view(),
                0,
                bindings,
                facts.deep_view(),
            ) is None && e is Render,
        },
{
    let bindings = match resolve_parameters(params, inputs, facts) {
        Ok(bindings) => bindings,
        Err(e) => {
            return Err(e);
        },
    };
    render_all(sources, jobs, &bindings, facts)
}

/// Law: the pipeline is deterministic. Two runs over the same template
/// sources and render jobs, the same declared parameters, the same fact map
/// and the same input lines define the same outcome: the same rendered text
/// for every destination, or the same refusal to produce any output.
pub proof fn lemma_pipeline_deterministic(
    params_a: Seq<(String, TemplateParameterInfo)>,
    inputs_a: Seq<Seq<char>>,
    facts_a: Seq<(Seq<char>, Seq<char>)>,
    sources_a: Seq<(Seq<char>, Seq<char>)>,
    jobs_a: Seq<(Seq<char>, Seq<char>)>,
    params_b: Seq<(String, TemplateParameterInfo)>,
    inputs_b: Seq<Seq<char>>,
    facts_b: Seq<(Seq<char>, Seq<char>)>,
    sources_b: Seq<(Seq<char>, Seq<char>)>,
    jobs_b: Seq<(Seq<char>, Seq<char>)>,
)
    requires
        params_a == params_b,
        inputs_a == inputs_b,
        facts_a == facts_b,
        sources_a == sources_b,
        jobs_a == jobs_b,
    ensures
        pipeline_outputs(params_a, inputs_a, facts_a, sources_a, jobs_a) == pipeline_outputs(
            params_b,
            inputs_b,
            facts_b,
            sources_b,
            jobs_b,
        ),
{
}

} // verus!
