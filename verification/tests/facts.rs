//! The base render context: key set, formatting, and the prompt labels.

use new_project::context::build_context;
use new_project::context::format_date;
use new_project::context::format_time;
use new_project::context::template_context;
use new_project::params::prompt_label;
use new_project::params::resolve_input;

#[test]
fn date_and_time_are_zero_padded() {
    assert_eq!(format_date(2024, 1, 1), "2024-01-01");
    assert_eq!(format_date(987, 12, 31), "0987-12-31");
    assert_eq!(format_time(7, 5, 9), "07:05:09");
    assert_eq!(format_time(23, 59, 59), "23:59:59");
}

#[test]
fn context_keys_in_insertion_order() {
    let facts = build_context(
        "demo",
        "/home/user/demo",
        2024,
        1,
        1,
        12,
        0,
        0,
        Some("Ada".to_string()),
        Some("ada@example.com".to_string()),
    );
    let expect = vec![
        ("project_directory_name".to_string(), "demo".to_string()),
        ("project_directory_path".to_string(), "/home/user/demo".to_string()),
        ("current_date".to_string(), "2024-01-01".to_string()),
        ("current_time".to_string(), "12:00:00".to_string()),
        ("git_user_name".to_string(), "Ada".to_string()),
        ("git_user_email".to_string(), "ada@example.com".to_string()),
    ];
    assert_eq!(facts, expect);
}

#[test]
fn absent_identity_keys_do_not_appear() {
    let facts = build_context("d", "/d", 2024, 6, 30, 1, 2, 3, None, None);
    assert_eq!(facts.len(), 4);
    assert!(facts.iter().all(|p| p.0 != "git_user_name" && p.0 != "git_user_email"));
}

#[test]
fn template_context_has_formatted_clock_values() {
    let facts = template_context("demo", "/tmp/demo", None, None);
    assert_eq!(facts.len(), 4);
    assert_eq!(facts[0], ("project_directory_name".to_string(), "demo".to_string()));
    assert_eq!(facts[1], ("project_directory_path".to_string(), "/tmp/demo".to_string()));
    let date = &facts[2].1;
    assert_eq!(facts[2].0, "current_date");
    assert_eq!(date.len(), 10);
    assert_eq!(&date[4..5], "-");
    assert_eq!(&date[7..8], "-");
    assert!(date.chars().enumerate().all(|(i, c)| i == 4 || i == 7 || c.is_ascii_digit()));
    let time = &facts[3].1;
    assert_eq!(facts[3].0, "current_time");
    assert_eq!(time.len(), 8);
    assert_eq!(&time[2..3], ":");
    assert_eq!(&time[5..6], ":");
    assert!(time.chars().enumerate().all(|(i, c)| i == 2 || i == 5 || c.is_ascii_digit()));
}

#[test]
fn prompt_label_shows_default() {
    let label = prompt_label(
        &"name".to_string(),
        &Some("Project name".to_string()),
        &Some("demo".to_string()),
    );
    assert_eq!(label, "Project name (default demo): ");
}

#[test]
fn prompt_label_falls_back_to_the_name() {
    let label = prompt_label(&"name".to_string(), &None, &None);
    assert_eq!(label, "name: ");
}

#[test]
fn input_is_trimmed_before_resolution() {
    let v = resolve_input(&"name".to_string(), "  World \n", &None).unwrap();
    assert_eq!(v, "World");
}

#[test]
fn empty_input_takes_the_default() {
    let v = resolve_input(&"name".to_string(), " \n", &Some("fallback".to_string())).unwrap();
    assert_eq!(v, "fallback");
}

#[test]
fn empty_input_without_default_names_the_parameter() {
    let e = resolve_input(&"city".to_string(), "", &None).unwrap_err();
    assert_eq!(e.message(), "property 'city' is missed");
}
