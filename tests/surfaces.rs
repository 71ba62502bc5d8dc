use nbi::cli::PublishRegistry;
use nbi::config::{Config, RegistrySettings};
use nbi::display::{
    outcome_status_text, registration_action_label, short_error_label, shorten_error, status_tone, Tone,
};
use nbi::domain::{candidates_for, domain_candidates};
use nbi::registry::{outcome_from_failure, outcome_from_status, RegistryType};
use nbi::server::{CheckRequest, DomainResult, FullDomainRequest};
use nbi::session::{App, InputMode, Screen};
use nbi::text::split_commas;

#[test]
fn bare_name_under_each_tld() {
    assert_eq!(
        domain_candidates("banana", "com, net ,org,io,dev"),
        vec!["banana.com", "banana.net", "banana.org", "banana.io", "banana.dev"]
    );
}

#[test]
fn full_domain_first_then_other_tlds() {
    assert_eq!(
        domain_candidates("banana.wiki", "com,wiki,dev"),
        vec!["banana.wiki", "banana.com", "banana.dev"]
    );
    assert_eq!(domain_candidates("a.b.io", "io,net"), vec!["a.b.io", "a.b.net"]);
    assert_eq!(candidates_for("x", &vec!["dev".to_string()]), vec!["x.dev"]);
}

#[test]
fn comma_split_keeps_empty_pieces() {
    assert_eq!(split_commas("a,,b"), vec!["a", "", "b"]);
    assert_eq!(split_commas(""), vec![""]);
    assert_eq!(split_commas("com"), vec!["com"]);
}

#[test]
fn error_labels() {
    assert_eq!(short_error_label("operation timed out (Timeout)"), "Timeout");
    assert_eq!(short_error_label("HTTP 429"), "Rate Limited");
    assert_eq!(short_error_label("403 Forbidden"), "Access Denied");
    assert_eq!(short_error_label("error trying to connect"), "Network Error");
    assert_eq!(short_error_label("weird"), "Error");
    assert_eq!(outcome_status_text(&outcome_from_status(RegistryType::Npm, "n", 404, "")), "Available");
    assert_eq!(outcome_status_text(&outcome_from_status(RegistryType::Npm, "n", 200, "")), "Taken");
    assert_eq!(outcome_status_text(&outcome_from_failure(RegistryType::Npm, "n", "request timeout")), "Timeout");
}

#[test]
fn long_errors_are_cut() {
    let long = "a".repeat(45);
    assert_eq!(shorten_error(&long), format!("{}...", "a".repeat(40)));
    assert_eq!(shorten_error("short"), "short");
    let wide = "\u{e9}".repeat(41);
    assert_eq!(shorten_error(&wide).chars().count(), 43);
}

#[test]
fn register_list_words() {
    assert_eq!(registration_action_label(RegistryType::GitHub), "Create repository");
    assert_eq!(registration_action_label(RegistryType::PyPi), "Reserve via GitHub");
    assert_eq!(registration_action_label(RegistryType::DevDomain), "Check registrar");
    assert_eq!(status_tone(&Some("Error: x".to_string())), Tone::Failure);
    assert_eq!(status_tone(&Some("Success".to_string())), Tone::Success);
    assert_eq!(status_tone(&None), Tone::Plain);
}

#[test]
fn status_bar_facts() {
    let mut app = App::new(Config::default());
    app.search_results = vec![
        outcome_from_failure(RegistryType::Npm, "n", "x"),
        outcome_from_status(RegistryType::Crates, "n", 404, ""),
        outcome_from_status(RegistryType::PyPi, "n", 500, "500"),
    ];
    assert_eq!(app.error_count(), 2);
    assert_eq!(app.mode_hint(), "EDITING | Esc to unfocus | Enter to search");
    app.input_mode = InputMode::Normal;
    assert_eq!(app.mode_hint(), "NORMAL | i,e to edit | Enter to focus");
    app.screen = Screen::Settings;
    assert!(app.mode_hint().contains("toggle"));
}

#[test]
fn server_records() {
    let none = CheckRequest { name: "x".to_string(), registries: None };
    assert_eq!(none.effective_settings(), RegistrySettings::default());
    let mut only = RegistrySettings::default();
    only.npm = false;
    let some = CheckRequest { name: "x".to_string(), registries: Some(only) };
    assert!(!some.effective_settings().npm);
    let o = outcome_from_failure(RegistryType::DevDomain, "x.dev", "boom");
    let d = DomainResult::from_outcome("x.dev", &o);
    assert_eq!(d.domain, "x.dev");
    assert_eq!(d.available, None);
    assert_eq!(d.error.as_deref(), Some("boom"));
    let req = FullDomainRequest { domains: vec!["a.io".to_string(), "b.dev".to_string()] };
    assert_eq!(req.label(), "a.io, b.dev");
    assert_eq!(FullDomainRequest { domains: vec![] }.label(), "");
}

#[test]
fn publish_plans() {
    let py = PublishRegistry::Pypi { path: "pkg".to_string() };
    let steps = py.steps();
    assert_eq!(steps.len(), 2);
    assert_eq!(steps[1].program, "python");
    assert_eq!(steps[1].args, vec!["-m", "twine", "upload", "dist/*"]);
    assert_eq!(steps[0].failure, "python build failed");
    assert_eq!(py.path(), "pkg");
    let npm = PublishRegistry::Npm { path: ".".to_string() };
    assert_eq!(npm.steps()[0].args, vec!["publish"]);
    assert_eq!(npm.label(), "npm");
}
