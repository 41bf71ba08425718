//! Parameter resolution: each declared parameter's default expression is
//! rendered against the parameters already resolved, the user's line is
//! trimmed, and the resolved value is appended to the bindings, in
//! declaration order. Empty input falls back to the rendered default; empty
//! input with no default aborts the run naming the parameter.

use vstd::prelude::*;
use crate::ScaffoldError;
use crate::config::TemplateParameterInfo;
use crate::config::param_names_distinct;
use crate::render::render_of;
use crate::render::render_expr;

verus! {

/// What the trimmed form of a line is. Relies on std's `str::trim`; the
/// result is a function of the characters alone.
pub uninterp spec fn trim_of(s: Seq<char>) -> Seq<char>;

/// Relies on std's `str::trim`: removes leading and trailing whitespace, so
/// the result is never longer than the input and an empty input stays empty.
#[verifier::external_body]
fn trim_ws(s: &str) -> (r: String)
    ensures
        r@ == trim_of(s@),
        r@.len() <= s@.len(),
        s@.len() == 0 ==> r@.len() == 0,
{
    s.trim().to_owned()
}

/// Why one parameter failed to resolve.
pub enum ParamError {
    /// Empty input and no default: the offending parameter's name.
    Missing(Seq<char>),
    /// The default expression failed to render.
    Render,
}

/// The rendered default of a parameter, given the parameters resolved so
/// far: no default declared is `Ok(None)`; a declared default is rendered as
/// a bare expression and a render failure fails the parameter.
pub open spec fn rendered_default_spec(
    dflt: Option<Seq<char>>,
    resolved: Seq<(Seq<char>, Seq<char>)>,
    facts: Seq<(Seq<char>, Seq<char>)>,
) -> Result<Option<Seq<char>>, ParamError> {
    match dflt {
        None => Ok(None),
        Some(text) => match render_of(Seq::<(Seq<char>, Seq<char>)>::empty(), text, resolved, facts) {
            None => Err(ParamError::Render),
            Some(v) => Ok(Some(v)),
        },
    }
}

/// The resolved value of one parameter: empty trimmed input with no default
/// is the missing-parameter error naming it; empty trimmed input with a
/// default is the rendered default, verbatim; anything else is the trimmed
/// input, verbatim (the default is never re-rendered against it).
pub open spec fn resolve_value_spec(
    name: Seq<char>,
    input: Seq<char>,
    rdflt: Option<Seq<char>>,
) -> Result<Seq<char>, ParamError> {
    if trim_of(input).len() == 0 {
        match rdflt {
            None => Err(ParamError::Missing(name)),
            Some(d) => Ok(d),
        }
    } else {
        Ok(trim_of(input))
    }
}

/// The prompt line for a parameter: its description (or, without one, its
/// name), with the rendered default shown when there is one.
pub open spec fn label_spec(
    name: Seq<char>,
    description: Option<Seq<char>>,
    rdflt: Option<Seq<char>>,
) -> Seq<char> {
    let desc = match description {
        Some(d) => d,
        None => name,
    };
    match rdflt {
        Some(v) => desc + " (default "@ + v + "): "@,
        None => desc + ": "@,
    }
}

/// Renders a parameter's default expression, if any, against the parameters
/// resolved so far and the fact map.
pub fn rendered_default(
    dflt: &Option<String>,
    resolved: &Vec<(String, String)>,
    facts: &Vec<(String, String)>,
) -> (r: Result<Option<String>, ScaffoldError>)
    ensures
        r matches Ok(v) ==> rendered_default_spec(dflt.deep_view(), resolved.deep_view(), facts.deep_view())
            == Ok::<Option<Seq<char>>, ParamError>(v.deep_view()),
        r matches Err(e) ==> rendered_default_spec(dflt.deep_view(), resolved.deep_view(), facts.deep_view())
            == Err::<Option<Seq<char>>, ParamError>(ParamError::Render) && e is Render,
{
    match dflt {
        None => Ok(None),
        Some(text) => match render_expr(text.as_str(), resolved, facts) {
            Ok(v) => Ok(Some(v)),
            Err(e) => Err(e),
        },
    }
}

/// The prompt line for a parameter.
pub fn prompt_label(name: &String, description: &Option<String>, rdflt: &Option<String>) -> (r: String)
    ensures
        r@ == label_spec(name@, description.deep_view(), rdflt.deep_view()),
{
    let mut r = match description {
        Some(d) => d.clone(),
        None => name.clone(),
    };
    match rdflt {
        Some(v) => {
            r.append(" (default ");
            r.append(v.as_str());
            r.append("): ");
        },
        None => {
            r.append(": ");
        },
    }
    r
}

/// Resolves one parameter from the user's raw line and the rendered
/// default. Empty trimmed input without a default is the error naming the
/// parameter; empty trimmed input with a default takes it verbatim;
/// non-empty trimmed input is taken verbatim.
pub fn resolve_input(name: &String, raw_input: &str, rdflt: &Option<String>) -> (r: Result<
    String,
    ScaffoldError,
>)
    ensures
        r matches Ok(v) ==> resolve_value_spec(name@, raw_input@, rdflt.deep_view())
            == Ok::<Seq<char>, ParamError>(v@),
        r matches Err(e) ==> resolve_value_spec(name@, raw_input@, rdflt.deep_view())
            == Err::<Seq<char>, ParamError>(ParamError::Missing(name@)) && (e matches ScaffoldError::MissingParameter(n) && n@ == name@),
{
    let trimmed = trim_ws(raw_input);
    if trimmed.as_str().is_empty() {
        match rdflt {
            None => Err(ScaffoldError::MissingParameter(name.clone())),
            Some(d) => Ok(d.clone()),
        }
    } else {
        Ok(trimmed)
    }
}

/// The bindings after resolving the first `k` parameters against the first
/// `k` simulated input lines (a missing line counts as an empty one), or the
/// first failure.
pub open spec fn resolved_prefix(
    params: Seq<(String, TemplateParameterInfo)>,
    inputs: Seq<Seq<char>>,
    facts: Seq<(Seq<char>, Seq<char>)>,
    k: int,
) -> Result<Seq<(Seq<char>, Seq<char>)>, ParamError>
    decreases k,
{
    if k <= 0 {
        Ok(Seq::empty())
    } else {
        match resolved_prefix(params, inputs, facts, k - 1) {
            Err(e) => Err(e),
            Ok(acc) => {
                let name = params[k - 1].0@;
                let dflt = params[k - 1].1.default.deep_view();
                let input = if k - 1 < inputs.len() {
                    inputs[k - 1]
                } else {
                    Seq::<char>::empty()
                };
                match rendered_default_spec(dflt, acc, facts) {
                    Err(e) => Err(e),
                    Ok(rd) => match resolve_value_spec(name, input, rd) {
                        Err(e) => Err(e),
                        Ok(v) => Ok(acc.push((name, v))),
                    },
                }
            },
        }
    }
}

/// The whole prompt phase over simulated input lines: the bindings after
/// every declared parameter is resolved, in declaration order.
pub open spec fn resolve_params_spec(
    params: Seq<(String, TemplateParameterInfo)>,
    inputs: Seq<Seq<char>>,
    facts: Seq<(Seq<char>, Seq<char>)>,
) -> Result<Seq<(Seq<char>, Seq<char>)>, ParamError> {
    resolved_prefix(params, inputs, facts, params.len() as int)
}

/// The library error reports exactly the failure the model names.
pub open spec fn err_matches(e: ScaffoldError, pe: ParamError) -> bool {
    match pe {
        ParamError::Missing(n) => e matches ScaffoldError::MissingParameter(en) && en@ == n,
        ParamError::Render => e is Render,
    }
}

/// Resolves every declared parameter against a list of input lines, one per
/// parameter in declaration order (as a scripted stand-in for the terminal),
/// and returns the bindings; the first failure aborts with its error.
pub fn resolve_parameters(
    params: &Vec<(String, TemplateParameterInfo)>,
    inputs: &Vec<String>,
    facts: &Vec<(String, String)>,
) -> (r: Result<Vec<(String, String)>, ScaffoldError>)
    ensures
        r matches Ok(v) ==> resolve_params_spec(params@, inputs.deep_view(), facts.deep_view())
            == Ok::<Seq<(Seq<char>, Seq<char>)>, ParamError>(v.deep_view()),
        r matches Err(e) ==> resolve_params_spec(params@, inputs.deep_view(), facts.deep_view()) is Err
            && err_matches(e, resolve_params_spec(params@, inputs.deep_view(), facts.deep_view())->Err_0),
{
    let mut resolved: Vec<(String, String)> = Vec::new();
    let mut k: usize = 0;
    proof {
        assert(resolved.deep_view() =~= Seq::<(Seq<char>, Seq<char>)>::empty());
    }
    while k < params.len()
        invariant
            0 <= k <= params@.len(),
            resolved_prefix(params@, inputs.deep_view(), facts.deep_view(), k as int)
                == Ok::<Seq<(Seq<char>, Seq<char>)>, ParamError>(resolved.deep_view()),
        decreases params@.len() - k,
    {
        let name = &params[k].0;
        let dflt = &params[k].1.default;
        let rd = match rendered_default(dflt, &resolved, facts) {
            Ok(rd) => rd,
            Err(e) => {
                proof {
                    assert(resolved_prefix(params@, inputs.deep_view(), facts.deep_view(), k as int + 1)
                        == Err::<Seq<(Seq<char>, Seq<char>)>, ParamError>(ParamError::Render));
                    lemma_prefix_err_propagates(params@, inputs.deep_view(), facts.deep_view(), k as int + 1);
                }
                return Err(e);
            },
        };
        let line: &str = if k < inputs.len() {
            inputs[k].as_str()
        } else {
            ""
        };
        proof {
            if k >= inputs.deep_view().len() {
                reveal_strlit("");
                assert(line@ =~= Seq::<char>::empty());
            }
        }
        let value = match resolve_input(name, line, &rd) {
            Ok(v) => v,
            Err(e) => {
                proof {
                    lemma_prefix_err_propagates(params@, inputs.deep_view(), facts.deep_view(), k as int + 1);
                }
                return Err(e);
            },
        };
        resolved.push((name.clone(), value));
        proof {
            assert(resolved.deep_view() =~= resolved_prefix(
                params@,
                inputs.deep_view(),
                facts.deep_view(),
                k as int,
            )->Ok_0.push((name@, value@)));
        }
        k += 1;
    }
    Ok(resolved)
}

/// Once some prefix of the parameters has failed, every longer prefix
/// reports that same failure.
pub proof fn lemma_prefix_err_propagates(
    params: Seq<(String, TemplateParameterInfo)>,
    inputs: Seq<Seq<char>>,
    facts: Seq<(Seq<char>, Seq<char>)>,
    k: int,
)
    requires
        0 <= k <= params.len(),
        resolved_prefix(params, inputs, facts, k) is Err,
    ensures
        forall|j: int| k <= j <= params.len() ==> resolved_prefix(params, inputs, facts, j)
            == resolved_prefix(params, inputs, facts, k),
    decreases params.len() - k,
{
    if k < params.len() {
        assert(resolved_prefix(params, inputs, facts, k + 1) == resolved_prefix(
            params,
            inputs,
            facts,
            k,
        ));
        lemma_prefix_err_propagates(params, inputs, facts, k + 1);
    }
}

/// Law: while parameter `k` is being resolved, the bindings that its default
/// expression is rendered against hold exactly the first `k` parameters, in
/// order, under their declared names — never parameter `k` itself nor any
/// later one. (`resolved_prefix` hands exactly these bindings to
/// `rendered_default_spec` at step `k`.)
pub proof fn lemma_default_sees_earlier_parameters(
    params: Seq<(String, TemplateParameterInfo)>,
    inputs: Seq<Seq<char>>,
    facts: Seq<(Seq<char>, Seq<char>)>,
    k: int,
)
    requires
        0 <= k <= params.len(),
        param_names_distinct(params.map_values(|p: (String, TemplateParameterInfo)| p.0@)),
        resolved_prefix(params, inputs, facts, k) is Ok,
    ensures
        resolved_prefix(params, inputs, facts, k)->Ok_0.len() == k,
        forall|i: int| 0 <= i < k ==> resolved_prefix(params, inputs, facts, k)->Ok_0[i].0
            == params[i].0@,
        forall|i: int, j: int|
            0 <= i < k && k <= j < params.len() ==> resolved_prefix(params, inputs, facts, k)->Ok_0[i].0
                != params[j].0@,
    decreases k,
{
    if k > 0 {
        assert(resolved_prefix(params, inputs, facts, k - 1) is Ok);
        lemma_default_sees_earlier_parameters(params, inputs, facts, k - 1);
        let prev = resolved_prefix(params, inputs, facts, k - 1)->Ok_0;
        let cur = resolved_prefix(params, inputs, facts, k)->Ok_0;
        assert(cur == prev.push((params[k - 1].0@, cur[k - 1].1)));
        let names = params.map_values(|p: (String, TemplateParameterInfo)| p.0@);
        assert forall|i: int, j: int| 0 <= i < k && k <= j < params.len() implies cur[i].0
            != params[j].0@ by {
            assert(names[i] == params[i].0@);
            assert(names[j] == params[j].0@);
        }
    }
}

} // verus!
