//! The template configuration: which files are rendered, which parameters are
//! prompted for (in declaration order), and which relative paths are excluded.

use vstd::prelude::*;

verus! {

/// One declared parameter: an optional prompt label and an optional default,
/// the default being a template expression, not a literal.
pub struct TemplateParameterInfo {
    pub description: Option<String>,
    pub default: Option<String>,
}

/// The configuration found (or defaulted) inside a template directory.
/// `parameters` is an ordered mapping: its order is the prompt order.
pub struct TemplateConfig {
    pub templates: Vec<String>,
    pub parameters: Vec<(String, TemplateParameterInfo)>,
    pub exclude: Vec<String>,
}

/// A configuration is well formed when its parameter names are distinct,
/// as they are in the configuration file's mapping.
pub open spec fn config_wf(c: TemplateConfig) -> bool {
    param_names_distinct(c.parameters@.map_values(|p: (String, TemplateParameterInfo)| p.0@))
}

/// All names in the sequence are pairwise distinct.
pub open spec fn param_names_distinct(names: Seq<Seq<char>>) -> bool {
    forall|i: int, j: int| 0 <= i < j < names.len() ==> names[i] != names[j]
}

impl TemplateConfig {
    /// The configuration used when no configuration file exists: everything
    /// empty, so every file is copied verbatim and nothing is prompted.
    pub fn empty() -> (r: TemplateConfig)
        ensures
            r.templates@ == Seq::<String>::empty(),
            r.parameters@ == Seq::<(String, TemplateParameterInfo)>::empty(),
            r.exclude@ == Seq::<String>::empty(),
            config_wf(r),
    {
        let r = TemplateConfig { templates: Vec::new(), parameters: Vec::new(), exclude: Vec::new() };
        proof {
            assert(r.parameters@.map_values(|p: (String, TemplateParameterInfo)| p.0@) =~= Seq::<Seq<char>>::empty());
        }
        r
    }
}

/// The candidate configuration file names, in the order they are probed —
/// the dotted full name first, then the `.yaml` and `.yml` suffixed forms;
/// the first one present in the template directory wins.
pub open spec fn default_config_names() -> Seq<Seq<char>> {
    seq![".new-project"@, ".new-project.yaml"@, ".new-project.yml"@]
}

/// The candidate configuration file names as strings, probe order.
pub fn default_template_config_pathes() -> (r: Vec<String>)
    ensures
        r.deep_view() == default_config_names(),
{
    let mut r: Vec<String> = Vec::new();
    r.push(String::from_str(".new-project"));
    r.push(String::from_str(".new-project.yaml"));
    r.push(String::from_str(".new-project.yml"));
    proof {
        assert(r.deep_view() =~= default_config_names());
    }
    r
}

/// The index of the first `true` flag, if any: the "first candidate found
/// wins" rule of configuration lookup, with one flag per candidate name.
pub fn first_present(flags: &Vec<bool>) -> (r: Option<usize>)
    ensures
        match r {
            Some(i) => 0 <= i < flags@.len() && flags@[i as int]
                && forall|j: int| 0 <= j < i ==> !flags@[j],
            None => forall|j: int| 0 <= j < flags@.len() ==> !flags@[j],
        },
{
    let mut i: usize = 0;
    while i < flags.len()
        invariant
            0 <= i <= flags@.len(),
            forall|j: int| 0 <= j < i ==> !flags@[j],
        decreases flags@.len() - i,
    {
        if flags[i] {
            return Some(i);
        }
        i += 1;
    }
    None
}

/// The full exclusion set: the configured excluded paths followed by the
/// candidate configuration file names (the configuration file itself must
/// never reach the output).
pub fn exclusion_paths(exclude: &Vec<String>) -> (r: Vec<String>)
    ensures
        r.deep_view() == exclude.deep_view() + default_config_names(),
{
    let mut r: Vec<String> = Vec::new();
    let mut i: usize = 0;
    while i < exclude.len()
        invariant
            0 <= i <= exclude@.len(),
            r@ =~= exclude@.take(i as int),
        decreases exclude@.len() - i,
    {
        r.push(exclude[i].clone());
        i += 1;
    }
    let ghost head = r.deep_view();
    proof {
        assert(r@ =~= exclude@);
        assert forall|j: int| 0 <= j < head.len() implies head[j] == exclude.deep_view()[j] by {
            assert(r@[j] == exclude@[j]);
        }
        assert(head =~= exclude.deep_view());
    }
    let mut defaults = default_template_config_pathes();
    r.append(&mut defaults);
    proof {
        assert forall|j: int| 0 <= j < r.deep_view().len() implies r.deep_view()[j] == (exclude.deep_view()
            + default_config_names())[j] by {
            if j < head.len() {
                assert(r@[j] == exclude@[j]);
            } else {
                assert(r.deep_view()[j] == default_config_names()[j - head.len()]);
            }
        }
        assert(r.deep_view() =~= exclude.deep_view() + default_config_names());
    }
    r
}

} // verus!
