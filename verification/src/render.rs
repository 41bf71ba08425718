//! The boundary to the opaque template engine, and the all-or-nothing
//! rendering of the queued template jobs. Rendering is strict: an undefined
//! reference is an error, never a silent blank.

use vstd::prelude::*;
use std::collections::BTreeMap;
use crate::ScaffoldError;

verus! {

/// What the template engine returns for a given set of named template
/// sources, a template text, the resolved parameter bindings and the fact
/// map: `Some` rendered text, or `None` when rendering fails (for example on
/// an undefined reference). The outcome depends on these four values alone.
pub uninterp spec fn render_of(
    sources: Seq<(Seq<char>, Seq<char>)>,
    text: Seq<char>,
    params: Seq<(Seq<char>, Seq<char>)>,
    facts: Seq<(Seq<char>, Seq<char>)>,
) -> Option<Seq<char>>;

/// Relies on minijinja: `Environment::render_str` with strict undefined
/// behavior and kept trailing newlines, after `add_template` for each named
/// source, one `add_global` binding `context` to the fact map (in the given
/// key order), and one `add_global` per parameter. Rendering there is a pure
/// function of those inputs, so the outcome is `render_of` applied to them.
#[verifier::external_body]
fn render_raw(
    sources: &Vec<(String, String)>,
    text: &str,
    params: &Vec<(String, String)>,
    facts: &Vec<(String, String)>,
) -> (r: Result<String, String>)
    ensures
        r matches Ok(s) ==> render_of(sources.deep_view(), text@, params.deep_view(), facts.deep_view())
            == Some(s@),
        r is Err ==> render_of(sources.deep_view(), text@, params.deep_view(), facts.deep_view()) is None,
{
    let mut env = minijinja::Environment::new();
    env.set_undefined_behavior(minijinja::UndefinedBehavior::Strict);
    env.set_keep_trailing_newline(true);
    for pair in sources.iter() {
        if let Err(e) = env.add_template(&pair.0, &pair.1) {
            return Err(e.to_string());
        }
    }
    let fact_map: BTreeMap<&str, &str> = facts.iter().map(|p| (p.0.as_str(), p.1.as_str())).collect();
    env.add_global("context", minijinja::value::Value::from_serialize(&fact_map));
    for pair in params.iter() {
        env.add_global(pair.0.clone(), pair.1.clone());
    }
    env.render_str(text, BTreeMap::<String, String>::new()).map_err(|e| e.to_string())
}

/// Renders one bare expression (a parameter default): no named templates are
/// registered, only the parameters resolved so far and the fact map are
/// visible to it.
pub fn render_expr(
    text: &str,
    params: &Vec<(String, String)>,
    facts: &Vec<(String, String)>,
) -> (r: Result<String, ScaffoldError>)
    ensures
        r matches Ok(s) ==> render_of(
            Seq::<(Seq<char>, Seq<char>)>::empty(),
            text@,
            params.deep_view(),
            facts.deep_view(),
        ) == Some(s@),
        r is Err ==> render_of(
            Seq::<(Seq<char>, Seq<char>)>::empty(),
            text@,
            params.deep_view(),
            facts.deep_view(),
        ) is None,
        r matches Err(e) ==> e is Render,
{
    let empty: Vec<(String, String)> = Vec::new();
    proof {
        assert(empty.deep_view() =~= Seq::<(Seq<char>, Seq<char>)>::empty());
    }
    match render_raw(&empty, text, params, facts) {
        Ok(s) => Ok(s),
        Err(m) => Err(ScaffoldError::Render(m)),
    }
}

/// The first source registered under `name`, if any.
pub open spec fn lookup_source(sources: Seq<(Seq<char>, Seq<char>)>, name: Seq<char>) -> Option<Seq<char>>
    decreases sources.len(),
{
    if sources.len() == 0 {
        None
    } else if sources[0].0 == name {
        Some(sources[0].1)
    } else {
        lookup_source(sources.drop_first(), name)
    }
}

/// What one queued render job produces: the named source rendered against
/// all registered sources, the parameters and the facts; `None` when the
/// name is unregistered or rendering fails.
pub open spec fn render_job_spec(
    sources: Seq<(Seq<char>, Seq<char>)>,
    name: Seq<char>,
    params: Seq<(Seq<char>, Seq<char>)>,
    facts: Seq<(Seq<char>, Seq<char>)>,
) -> Option<Seq<char>> {
    match lookup_source(sources, name) {
        None => None,
        Some(text) => render_of(sources, text, params, facts),
    }
}

/// What the whole render phase produces for the jobs from index `k` on:
/// the `(rendered text, destination)` pairs in queue order, or `None` as
/// soon as any single job fails.
pub open spec fn render_jobs_spec(
    sources: Seq<(Seq<char>, Seq<char>)>,
    jobs: Seq<(Seq<char>, Seq<char>)>,
    k: int,
    params: Seq<(Seq<char>, Seq<char>)>,
    facts: Seq<(Seq<char>, Seq<char>)>,
) -> Option<Seq<(Seq<char>, Seq<char>)>>
    decreases jobs.len() - k,
{
    if k < 0 || k >= jobs.len() {
        Some(Seq::empty())
    } else {
        match render_job_spec(sources, jobs[k].0, params, facts) {
            None => None,
            Some(content) => match render_jobs_spec(sources, jobs, k + 1, params, facts) {
                None => None,
                Some(rest) => Some(seq![(content, jobs[k].1)] + rest),
            },
        }
    }
}

/// The first source registered under `name`, executable form.
fn find_source<'a>(sources: &'a Vec<(String, String)>, name: &String) -> (r: Option<&'a String>)
    ensures
        match r {
            Some(text) => lookup_source(sources.deep_view(), name@) == Some(text@),
            None => lookup_source(sources.deep_view(), name@) is None,
        },
{
    let mut i: usize = 0;
    proof {
        assert(sources.deep_view().skip(0) =~= sources.deep_view());
    }
    while i < sources.len()
        invariant
            0 <= i <= sources@.len(),
            forall|j: int| 0 <= j < i ==> sources.deep_view()[j].0 != name@,
            lookup_source(sources.deep_view(), name@) == lookup_source(
                sources.deep_view().skip(i as int),
                name@,
            ),
        decreases sources@.len() - i,
    {
        if sources[i].0.eq(name) {
            proof {
                assert(sources.deep_view().skip(i as int)[0] == sources.deep_view()[i as int]);
            }
            return Some(&sources[i].1);
        }
        proof {
            assert(sources.deep_view().skip(i as int).drop_first() =~= sources.deep_view().skip(
                i as int + 1,
            ));
            assert(sources.deep_view().skip(i as int)[0] == sources.deep_view()[i as int]);
        }
        i += 1;
    }
    proof {
        assert(sources.deep_view().skip(i as int) =~= Seq::<(Seq<char>, Seq<char>)>::empty());
    }
    None
}

/// Renders the jobs from index `k` on. No filesystem effect anywhere: either
/// every remaining job rendered and the texts are returned, or the first
/// failure is reported and nothing is returned.
fn render_jobs_from(
    sources: &Vec<(String, String)>,
    jobs: &Vec<(String, String)>,
    k: usize,
    params: &Vec<(String, String)>,
    facts: &Vec<(String, String)>,
) -> (r: Result<Vec<(String, String)>, ScaffoldError>)
    requires
        k <= jobs@.len(),
    ensures
        r matches Ok(v) ==> render_jobs_spec(
            sources.deep_view(),
            jobs.deep_view(),
            k as int,
            params.deep_view(),
            facts.deep_view(),
        ) == Some(v.deep_view()),
        r is Err ==> render_jobs_spec(
            sources.deep_view(),
            jobs.deep_view(),
            k as int,
            params.deep_view(),
            facts.deep_view(),
        ) is None,
        r matches Err(e) ==> e is Render,
    decreases jobs@.len() - k,
{
    if k == jobs.len() {
        let r: Vec<(String, String)> = Vec::new();
        proof {
            assert(r.deep_view() =~= Seq::<(Seq<char>, Seq<char>)>::empty());
        }
        return Ok(r);
    }
    let name = &jobs[k].0;
    let text = match find_source(sources, name) {
        Some(text) => text,
        None => {
            let mut m = String::from_str("template '");
            m.append(name.as_str());
            m.append("' is not registered");
            return Err(ScaffoldError::Render(m));
        },
    };
    let content = match render_raw(sources, text.as_str(), params, facts) {
        Ok(content) => content,
        Err(m) => {
            return Err(ScaffoldError::Render(m));
        },
    };
    let mut rest = render_jobs_from(sources, jobs, k + 1, params, facts)?;
    let dest = jobs[k].1.clone();
    rest.insert(0, (content, dest));
    proof {
        assert(jobs.deep_view()[k as int] == (name@, jobs@[k as int].1@));
        assert(rest.deep_view() =~= seq![(content@, jobs.deep_view()[k as int].1)]
            + rest.deep_view().drop_first());
    }
    Ok(rest)
}

/// The render phase of materialization: every queued `(template name,
/// destination)` job is rendered against the final context before anything
/// is written, so a failure in any template means no rendered text is handed
/// out at all. `Ok` returns the `(rendered text, destination)` pairs in
/// queue order.
pub fn render_all(
    sources: &Vec<(String, String)>,
    jobs: &Vec<(String, String)>,
    params: &Vec<(String, String)>,
    facts: &Vec<(String, String)>,
) -> (r: Result<Vec<(String, String)>, ScaffoldError>)
    ensures
        r matches Ok(v) ==> render_jobs_spec(
            sources.deep_view(),
            jobs.deep_view(),
            0,
            params.deep_view(),
            facts.deep_view(),
        ) == Some(v.deep_view()),
        r is Err ==> render_jobs_spec(
            sources.deep_view(),
            jobs.deep_view(),
            0,
            params.deep_view(),
            facts.deep_view(),
        ) is None,
        r matches Err(e) ==> e is Render,
{
    render_jobs_from(sources, jobs, 0, params, facts)
}

} // verus!
