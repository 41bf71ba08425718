//! End-to-end scenarios through the public pipeline: rendering, parameter
//! resolution, determinism.

use new_project::config::TemplateParameterInfo;
use new_project::run_pipeline;
use new_project::ScaffoldError;

fn pairs(list: &[(&str, &str)]) -> Vec<(String, String)> {
    list.iter().map(|(a, b)| (a.to_string(), b.to_string())).collect()
}

fn lines(list: &[&str]) -> Vec<String> {
    list.iter().map(|s| s.to_string()).collect()
}

fn param(name: &str, description: Option<&str>, default: Option<&str>) -> (String, TemplateParameterInfo) {
    (
        name.to_string(),
        TemplateParameterInfo {
            description: description.map(|s| s.to_string()),
            default: default.map(|s| s.to_string()),
        },
    )
}

#[test]
fn readme_render_scenario() {
    let params = vec![param("name", None, None)];
    let inputs = lines(&["World"]);
    let facts = pairs(&[("current_date", "2024-01-01")]);
    let sources = pairs(&[(
        "README.md.j2",
        "Hello {{ name }}, created {{ context.current_date }}",
    )]);
    let jobs = pairs(&[("README.md.j2", "/project/README.md.j2")]);
    let out = run_pipeline(&params, &inputs, &facts, &sources, &jobs).unwrap();
    assert_eq!(out.len(), 1);
    assert_eq!(out[0].0, "Hello World, created 2024-01-01");
    assert_eq!(out[0].1, "/project/README.md.j2");
}

#[test]
fn missing_parameter_aborts() {
    let params = vec![param("name", None, None)];
    let inputs = lines(&[""]);
    let facts = pairs(&[]);
    let sources = pairs(&[]);
    let jobs = pairs(&[]);
    let err = run_pipeline(&params, &inputs, &facts, &sources, &jobs).unwrap_err();
    assert_eq!(err.message(), "property 'name' is missed");
}

#[test]
fn whitespace_only_input_is_missing() {
    let params = vec![param("name", None, None)];
    let inputs = lines(&["   \t  "]);
    let facts = pairs(&[]);
    let err = run_pipeline(&params, &inputs, &facts, &pairs(&[]), &pairs(&[])).unwrap_err();
    assert_eq!(err.message(), "property 'name' is missed");
}

#[test]
fn default_used_verbatim_on_empty_input() {
    let params = vec![param("db", None, Some("db_{{ context.project_directory_name }}"))];
    let inputs = lines(&[""]);
    let facts = pairs(&[("project_directory_name", "demo")]);
    let sources = pairs(&[("out.j2", "{{ db }}")]);
    let jobs = pairs(&[("out.j2", "/p/out.j2")]);
    let out = run_pipeline(&params, &inputs, &facts, &sources, &jobs).unwrap();
    assert_eq!(out[0].0, "db_demo");
}

#[test]
fn nonempty_input_overrides_default() {
    let params = vec![param("db", None, Some("db_default"))];
    let inputs = lines(&["  custom  "]);
    let facts = pairs(&[]);
    let sources = pairs(&[("out.j2", "{{ db }}")]);
    let jobs = pairs(&[("out.j2", "/p/out.j2")]);
    let out = run_pipeline(&params, &inputs, &facts, &sources, &jobs).unwrap();
    assert_eq!(out[0].0, "custom");
}

#[test]
fn default_sees_earlier_parameters_only() {
    let params = vec![
        param("first", None, None),
        param("second", None, Some("{{ first }}_x")),
    ];
    let inputs = lines(&["foo", ""]);
    let facts = pairs(&[]);
    let sources = pairs(&[("out.j2", "{{ first }}/{{ second }}")]);
    let jobs = pairs(&[("out.j2", "/p/out.j2")]);
    let out = run_pipeline(&params, &inputs, &facts, &sources, &jobs).unwrap();
    assert_eq!(out[0].0, "foo/foo_x");
}

#[test]
fn default_referencing_later_parameter_fails() {
    let params = vec![
        param("first", None, Some("{{ second }}")),
        param("second", None, None),
    ];
    let inputs = lines(&["", "b"]);
    let facts = pairs(&[]);
    let err = run_pipeline(&params, &inputs, &facts, &pairs(&[]), &pairs(&[])).unwrap_err();
    assert!(matches!(err, ScaffoldError::Render(_)));
}

#[test]
fn undefined_reference_is_a_render_error() {
    let params: Vec<(String, TemplateParameterInfo)> = Vec::new();
    let inputs = lines(&[]);
    let facts = pairs(&[]);
    let sources = pairs(&[("bad.j2", "{{ nobody }}")]);
    let jobs = pairs(&[("bad.j2", "/p/bad.j2")]);
    let err = run_pipeline(&params, &inputs, &facts, &sources, &jobs).unwrap_err();
    assert!(matches!(err, ScaffoldError::Render(_)));
}

#[test]
fn failing_template_yields_no_output_at_all() {
    let params: Vec<(String, TemplateParameterInfo)> = Vec::new();
    let inputs = lines(&[]);
    let facts = pairs(&[]);
    let sources = pairs(&[("ok.j2", "fine"), ("bad.j2", "{{ nobody }}")]);
    let jobs = pairs(&[("ok.j2", "/p/ok"), ("bad.j2", "/p/bad")]);
    let r = run_pipeline(&params, &inputs, &facts, &sources, &jobs);
    assert!(r.is_err());
}

#[test]
fn job_for_an_unregistered_template_fails() {
    let params: Vec<(String, TemplateParameterInfo)> = Vec::new();
    let inputs = lines(&[]);
    let facts = pairs(&[]);
    let sources = pairs(&[]);
    let jobs = pairs(&[("ghost.j2", "/p/ghost")]);
    let err = run_pipeline(&params, &inputs, &facts, &sources, &jobs).unwrap_err();
    assert!(matches!(err, ScaffoldError::Render(_)));
}

#[test]
fn templates_may_include_each_other() {
    let params: Vec<(String, TemplateParameterInfo)> = Vec::new();
    let inputs = lines(&[]);
    let facts = pairs(&[("k", "v")]);
    let sources = pairs(&[
        ("base.j2", "[{{ context.k }}]"),
        ("page.j2", "page {% include 'base.j2' %}"),
    ]);
    let jobs = pairs(&[("page.j2", "/p/page")]);
    let out = run_pipeline(&params, &inputs, &facts, &sources, &jobs).unwrap();
    assert_eq!(out[0].0, "page [v]");
}

#[test]
fn pipeline_is_deterministic() {
    let params = vec![param("name", Some("Project name"), Some("demo"))];
    let inputs = lines(&[""]);
    let facts = pairs(&[("current_date", "2024-01-01"), ("project_directory_name", "p")]);
    let sources = pairs(&[("a.j2", "{{ name }} on {{ context.current_date }}")]);
    let jobs = pairs(&[("a.j2", "/p/a")]);
    let first = run_pipeline(&params, &inputs, &facts, &sources, &jobs).unwrap();
    let second = run_pipeline(&params, &inputs, &facts, &sources, &jobs).unwrap();
    assert_eq!(first, second);
}

#[test]
fn no_parameters_no_prompts() {
    let params: Vec<(String, TemplateParameterInfo)> = Vec::new();
    let inputs = lines(&[]);
    let facts = pairs(&[]);
    let out = run_pipeline(&params, &inputs, &facts, &pairs(&[]), &pairs(&[])).unwrap();
    assert!(out.is_empty());
}

#[test]
fn trailing_newline_is_kept() {
    let params: Vec<(String, TemplateParameterInfo)> = Vec::new();
    let inputs = lines(&[]);
    let facts = pairs(&[("k", "v")]);
    let sources = pairs(&[("a.j2", "line {{ context.k }}\n")]);
    let jobs = pairs(&[("a.j2", "/p/a")]);
    let out = run_pipeline(&params, &inputs, &facts, &sources, &jobs).unwrap();
    assert_eq!(out[0].0, "line v\n");
}
