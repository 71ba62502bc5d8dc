use nbi::aggregate::{check_all, planned_probes};
use nbi::config::RegistrySettings;
use nbi::registry::{outcome_from_failure, outcome_from_status, AvailabilityResult, RegistryType};
use nbi::session::App;
use nbi::config::Config;

fn all_on() -> RegistrySettings {
    RegistrySettings::default()
}

fn none_on() -> RegistrySettings {
    RegistrySettings {
        npm: false,
        crates: false,
        pypi: false,
        brew: false,
        flatpak: false,
        debian: false,
        dev_domain: false,
        github: false,
    }
}

fn not_found(kind: RegistryType, name: &str) -> AvailabilityResult {
    outcome_from_status(kind, name, 404, "404 Not Found")
}

#[test]
fn plan_follows_declaration_order() {
    let kinds = planned_probes(&all_on());
    assert_eq!(
        kinds,
        vec![
            RegistryType::Npm,
            RegistryType::Crates,
            RegistryType::PyPi,
            RegistryType::Brew,
            RegistryType::Flatpak,
            RegistryType::Debian,
            RegistryType::DevDomain,
            RegistryType::GitHub
        ]
    );
    assert!(planned_probes(&none_on()).is_empty());
}

#[test]
fn batch_size_matches_enabled_kinds_whatever_the_completion_order() {
    let mut s = none_on();
    s.debian = true;
    s.npm = true;
    s.flatpak = true;
    s.github = true;
    let name = "widget";
    // completed in reverse order
    let reported = vec![
        not_found(RegistryType::Debian, name),
        not_found(RegistryType::Flatpak, name),
        not_found(RegistryType::Npm, name),
    ];
    let batch = check_all(name, &s, &reported);
    let kinds: Vec<RegistryType> = batch.iter().map(|r| r.registry).collect();
    assert_eq!(kinds, vec![RegistryType::Npm, RegistryType::Flatpak, RegistryType::Debian, RegistryType::GitHub]);
    assert_eq!(batch[3].available, None);
    let forward = vec![
        not_found(RegistryType::Npm, name),
        not_found(RegistryType::Flatpak, name),
        not_found(RegistryType::Debian, name),
    ];
    let batch2 = check_all(name, &s, &forward);
    let kinds2: Vec<RegistryType> = batch2.iter().map(|r| r.registry).collect();
    assert_eq!(kinds, kinds2);
}

#[test]
fn disabled_kinds_are_left_out_even_when_reported() {
    let mut s = none_on();
    s.pypi = true;
    let reported = vec![not_found(RegistryType::Npm, "x"), not_found(RegistryType::PyPi, "x")];
    let batch = check_all("x", &s, &reported);
    assert_eq!(batch.len(), 1);
    assert_eq!(batch[0].registry, RegistryType::PyPi);
}

#[test]
fn failed_probe_keeps_its_place() {
    let s = all_on();
    let name = "thing";
    let mut reported = Vec::new();
    for k in planned_probes(&s) {
        if k == RegistryType::Brew {
            reported.push(outcome_from_failure(k, name, "error sending request: connection refused"));
        } else {
            reported.push(not_found(k, name));
        }
    }
    let batch = check_all(name, &s, &reported);
    assert_eq!(batch.len(), 8);
    let brew = &batch[3];
    assert_eq!(brew.registry, RegistryType::Brew);
    assert_eq!(brew.available, None);
    assert_eq!(brew.error.as_deref(), Some("error sending request: connection refused"));
}

#[test]
fn unreported_probe_is_undetermined_not_dropped() {
    let mut s = none_on();
    s.npm = true;
    s.crates = true;
    let batch = check_all("n", &s, &vec![not_found(RegistryType::Npm, "n")]);
    assert_eq!(batch.len(), 2);
    assert_eq!(batch[1].registry, RegistryType::Crates);
    assert_eq!(batch[1].available, None);
    assert_eq!(batch[1].error.as_deref(), Some("probe did not report"));
}

#[test]
fn left_pad_all_free() {
    let name = "left-pad-9f3k";
    let s = all_on();
    let reported: Vec<AvailabilityResult> = planned_probes(&s).into_iter().map(|k| not_found(k, name)).collect();
    let batch = check_all(name, &s, &reported);
    let n = planned_probes(&s).len();
    assert_eq!(batch.len(), n);
    assert!(batch.iter().all(|r| r.available == Some(true) && r.error.is_none() && r.name == name));
    let mut app = App::new(Config::default());
    app.is_searching = true;
    assert!(app.commit_search(0, batch));
    assert_eq!(app.get_available_registries().len(), n);
    assert_eq!(app.available_count(), n);
}

#[test]
fn express_taken_with_one_timeout() {
    let name = "express";
    let mut s = none_on();
    s.npm = true;
    s.crates = true;
    s.pypi = true;
    s.brew = true;
    let reported = vec![
        outcome_from_status(RegistryType::PyPi, name, 200, "200 OK"),
        outcome_from_failure(RegistryType::Brew, name, "operation timed out"),
        outcome_from_status(RegistryType::Npm, name, 200, "200 OK"),
        outcome_from_status(RegistryType::Crates, name, 200, "200 OK"),
    ];
    let batch = check_all(name, &s, &reported);
    assert_eq!(batch.len(), 4);
    for r in &batch[..3] {
        assert_eq!(r.available, Some(false));
    }
    assert_eq!(batch[3].available, None);
    assert_eq!(batch.iter().filter(|r| r.error.is_some()).count(), 1);
}

#[test]
fn unreported_domain_is_named_after_the_domain() {
    let mut s = none_on();
    s.dev_domain = true;
    s.github = true;
    let batch = check_all("widget", &s, &vec![]);
    assert_eq!(batch.len(), 2);
    assert_eq!(batch[0].registry, RegistryType::DevDomain);
    assert_eq!(batch[0].name, "widget.dev");
    assert_eq!(batch[1].registry, RegistryType::GitHub);
    assert_eq!(batch[1].name, "widget");
}

#[test]
fn all_kinds_enabled_gives_eight_outcomes() {
    let s = all_on();
    let reported: Vec<AvailabilityResult> = planned_probes(&s).into_iter().map(|k| not_found(k, "z")).collect();
    assert_eq!(check_all("z", &s, &reported).len(), 8);
}
