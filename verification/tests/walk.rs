//! The tree walk and classification, driven the way a filesystem driver
//! drives it: pop a directory, record its children, repeat.

use new_project::config::default_template_config_pathes;
use new_project::config::exclusion_paths;
use new_project::config::first_present;
use new_project::config::TemplateConfig;
use new_project::plan::classify;
use new_project::plan::new_plan;
use new_project::plan::next_target;
use new_project::plan::record_entry;
use new_project::plan::EntryClass;

fn strings(list: &[&str]) -> Vec<String> {
    list.iter().map(|s| s.to_string()).collect()
}

#[test]
fn config_candidates_probe_order() {
    let names = default_template_config_pathes();
    assert_eq!(names, strings(&[".new-project", ".new-project.yaml", ".new-project.yml"]));
}

#[test]
fn first_candidate_found_wins() {
    assert_eq!(first_present(&vec![false, true, true]), Some(1));
    assert_eq!(first_present(&vec![true, false, false]), Some(0));
    assert_eq!(first_present(&vec![false, false, false]), None);
    assert_eq!(first_present(&vec![]), None);
}

#[test]
fn empty_config_is_all_empty() {
    let c = TemplateConfig::empty();
    assert!(c.templates.is_empty());
    assert!(c.parameters.is_empty());
    assert!(c.exclude.is_empty());
}

#[test]
fn exclusion_set_always_holds_config_names() {
    let set = exclusion_paths(&strings(&[".secrets"]));
    assert_eq!(
        set,
        strings(&[".secrets", ".new-project", ".new-project.yaml", ".new-project.yml"])
    );
}

#[test]
fn exclusion_wins_over_templates() {
    let exclude = strings(&["a.txt"]);
    let templates = strings(&["a.txt"]);
    let c = classify(&"a.txt".to_string(), false, &exclude, &templates);
    assert_eq!(c, EntryClass::Excluded);
}

#[test]
fn classification_rules() {
    let exclude = strings(&[".secrets"]);
    let templates = strings(&["README.md.j2"]);
    assert_eq!(classify(&".secrets".to_string(), false, &exclude, &templates), EntryClass::Excluded);
    assert_eq!(classify(&".secrets".to_string(), true, &exclude, &templates), EntryClass::Excluded);
    assert_eq!(classify(&"sub".to_string(), true, &exclude, &templates), EntryClass::Directory);
    assert_eq!(
        classify(&"README.md.j2".to_string(), false, &exclude, &templates),
        EntryClass::Render
    );
    assert_eq!(classify(&"plain.txt".to_string(), false, &exclude, &templates), EntryClass::Copy);
}

#[test]
fn excluded_file_never_reaches_a_queue() {
    let exclude = exclusion_paths(&strings(&[".secrets"]));
    let templates = strings(&[]);
    let mut plan = new_plan("/tpl", "/prj");
    let root = next_target(&mut plan).unwrap();
    let c1 = record_entry(&mut plan, &root, &".secrets".to_string(), false, &exclude, &templates);
    let c2 = record_entry(&mut plan, &root, &"public.txt".to_string(), false, &exclude, &templates);
    assert_eq!(c1, EntryClass::Excluded);
    assert_eq!(c2, EntryClass::Copy);
    assert!(next_target(&mut plan).is_none());
    assert_eq!(plan.copies.len(), 1);
    assert_eq!(plan.copies[0].src, "/tpl/public.txt");
    assert_eq!(plan.copies[0].dest, "/prj/public.txt");
    assert_eq!(plan.copies[0].rel, "public.txt");
    assert!(plan.renders.is_empty());
    assert_eq!(plan.dirs.len(), 1);
    assert_eq!(plan.dirs[0].dest, "/prj");
}

#[test]
fn excluded_directory_is_not_descended_into() {
    let exclude = exclusion_paths(&strings(&["private"]));
    let templates = strings(&[]);
    let mut plan = new_plan("/tpl", "/prj");
    let root = next_target(&mut plan).unwrap();
    let c = record_entry(&mut plan, &root, &"private".to_string(), true, &exclude, &templates);
    assert_eq!(c, EntryClass::Excluded);
    assert!(next_target(&mut plan).is_none());
    assert!(plan.copies.is_empty());
    assert!(plan.renders.is_empty());
}

#[test]
fn walk_descends_into_subdirectories() {
    let exclude = exclusion_paths(&strings(&[]));
    let templates = strings(&["sub/page.j2"]);
    let mut plan = new_plan("/tpl", "/prj");

    let root = next_target(&mut plan).unwrap();
    assert_eq!(root.src, "/tpl");
    assert_eq!(root.dest, "/prj");
    assert_eq!(root.rel, "");
    let c = record_entry(&mut plan, &root, &"sub".to_string(), true, &exclude, &templates);
    assert_eq!(c, EntryClass::Directory);

    let sub = next_target(&mut plan).unwrap();
    assert_eq!(sub.src, "/tpl/sub");
    assert_eq!(sub.dest, "/prj/sub");
    assert_eq!(sub.rel, "sub");
    let c1 = record_entry(&mut plan, &sub, &"page.j2".to_string(), false, &exclude, &templates);
    let c2 = record_entry(&mut plan, &sub, &"data.txt".to_string(), false, &exclude, &templates);
    assert_eq!(c1, EntryClass::Render);
    assert_eq!(c2, EntryClass::Copy);

    assert!(next_target(&mut plan).is_none());
    assert_eq!(plan.dirs.len(), 2);
    assert_eq!(plan.dirs[0].dest, "/prj");
    assert_eq!(plan.dirs[1].dest, "/prj/sub");
    assert_eq!(plan.renders.len(), 1);
    assert_eq!(plan.renders[0].0, "sub/page.j2");
    assert_eq!(plan.renders[0].1, "/prj/sub/page.j2");
    assert_eq!(plan.copies.len(), 1);
    assert_eq!(plan.copies[0].src, "/tpl/sub/data.txt");
}

#[test]
fn excluded_path_is_skipped_even_when_listed_as_template() {
    let exclude = exclusion_paths(&strings(&["both.j2"]));
    let templates = strings(&["both.j2"]);
    let mut plan = new_plan("/tpl", "/prj");
    let root = next_target(&mut plan).unwrap();
    let c = record_entry(&mut plan, &root, &"both.j2".to_string(), false, &exclude, &templates);
    assert_eq!(c, EntryClass::Excluded);
    assert!(plan.renders.is_empty());
    assert!(plan.copies.is_empty());
}

#[test]
fn no_config_everything_is_copied() {
    let config = TemplateConfig::empty();
    let exclude = exclusion_paths(&config.exclude);
    let mut plan = new_plan("/tpl", "/prj");
    let root = next_target(&mut plan).unwrap();
    for name in ["a.txt", "b.md", "c.rs"] {
        let c = record_entry(&mut plan, &root, &name.to_string(), false, &exclude, &config.templates);
        assert_eq!(c, EntryClass::Copy);
    }
    assert!(next_target(&mut plan).is_none());
    assert_eq!(plan.copies.len(), 3);
    assert!(plan.renders.is_empty());
    for job in &plan.copies {
        assert_eq!(job.src.replace("/tpl/", "/prj/"), job.dest);
    }
}
