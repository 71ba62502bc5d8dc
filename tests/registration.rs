use base64::Engine;
use nbi::github::{
    classify_create_repo, classify_file_lookup, classify_file_write, classify_user_lookup, format_github_error,
    GitHubError, ManifestType,
};
use nbi::registration::{Registration, RegistrationAction, RegistrationEvent, RegistrationResult};
use nbi::registry::RegistryType;

fn finished(a: &RegistrationAction) -> Option<(bool, String)> {
    match a {
        RegistrationAction::Finish { result: RegistrationResult::Success(m) } => Some((true, m.clone())),
        RegistrationAction::Finish { result: RegistrationResult::Error(m) } => Some((false, m.clone())),
        _ => None,
    }
}

#[test]
fn github_without_credential_fails_before_any_request() {
    let (reg, action) = Registration::start(RegistryType::GitHub, "my-tool", false);
    let _ = reg;
    let (ok, msg) = finished(&action).expect("no request may be made");
    assert!(!ok);
    assert_eq!(msg, "Set GITHUB_TOKEN environment variable");
    assert_eq!(
        RegistrationResult::Error(msg).status_text(),
        "Error: Set GITHUB_TOKEN environment variable"
    );
}

#[test]
fn github_repository_created() {
    let (mut reg, action) = Registration::start(RegistryType::GitHub, "my-tool", true);
    match action {
        RegistrationAction::CreateRepo { repo_name, description } => {
            assert_eq!(repo_name, "my-tool");
            assert!(description.is_none());
        },
        _ => panic!("expected a creation request"),
    }
    let done = reg.advance(RegistrationEvent::RepoCreated { html_url: "https://github.com/me/my-tool".to_string() });
    assert_eq!(finished(&done), Some((true, "Created: https://github.com/me/my-tool".to_string())));
}

#[test]
fn manual_registries_need_no_request() {
    let (_, a) = Registration::start(RegistryType::Brew, "x", true);
    assert_eq!(finished(&a), Some((true, "Homebrew: Create a formula and submit PR to homebrew-core".to_string())));
    let (_, f) = Registration::start(RegistryType::Flatpak, "x", false);
    assert_eq!(finished(&f), Some((true, "Flatpak: Submit your app to flathub.org/apps/submit".to_string())));
    let (_, n) = Registration::start(RegistryType::Npm, "x", false);
    assert_eq!(finished(&n), Some((false, "Set GITHUB_TOKEN environment variable".to_string())));
    let (_, d) = Registration::start(RegistryType::DevDomain, "x", true);
    assert_eq!(
        finished(&d),
        Some((true, "Domain registration requires a registrar (e.g., Google Domains, Namecheap)".to_string()))
    );
}

#[test]
fn new_placeholder_gets_manifest() {
    let (mut reg, action) = Registration::start(RegistryType::Crates, "mycrate", true);
    match action {
        RegistrationAction::CreateRepo { description, .. } => {
            assert_eq!(description.as_deref(), Some("Reserved package name for Cargo.toml"))
        },
        _ => panic!("expected a creation request"),
    }
    let a = reg.advance(RegistrationEvent::RepoCreated { html_url: "https://github.com/me/mycrate".to_string() });
    assert!(matches!(a, RegistrationAction::FetchUsername));
    let a = reg.advance(RegistrationEvent::Username { login: "me".to_string() });
    assert!(matches!(a, RegistrationAction::Pause { seconds: 2 }));
    let a = reg.advance(RegistrationEvent::Resumed);
    match a {
        RegistrationAction::WriteFile { owner, repo, path, encoded, message } => {
            assert_eq!(owner, "me");
            assert_eq!(repo, "mycrate");
            assert_eq!(path, "Cargo.toml");
            assert_eq!(message, "Add Cargo.toml for package reservation");
            let text = ManifestType::Crates.generate_content("mycrate", "Reserved package name for Cargo.toml");
            assert_ne!(encoded, text);
            assert_eq!(encoded, base64::engine::general_purpose::STANDARD.encode(text.as_bytes()));
        },
        _ => panic!("expected a write request"),
    }
    let a = reg.advance(RegistrationEvent::FileWritten);
    assert_eq!(
        finished(&a),
        Some((true, "https://github.com/me/mycrate - Run 'cargo publish' to claim the name".to_string()))
    );
}

#[test]
fn manifest_failure_still_reports_the_repository() {
    let (mut reg, _) = Registration::start(RegistryType::Npm, "pkg", true);
    reg.advance(RegistrationEvent::RepoCreated { html_url: "https://github.com/me/pkg".to_string() });
    reg.advance(RegistrationEvent::Username { login: "me".to_string() });
    reg.advance(RegistrationEvent::Resumed);
    let a = reg.advance(RegistrationEvent::Failed { error: GitHubError::ApiError("boom".to_string()) });
    let (ok, msg) = finished(&a).unwrap();
    assert!(ok);
    assert!(msg.starts_with("https://github.com/me/pkg"));
    assert!(msg.ends_with("API error: boom"));
}

/// Runs the fallback against an existing repository whose manifest is
/// `present`; returns whether a write was requested and the final message.
fn ensure_on_existing(present: bool) -> (bool, String) {
    let (mut reg, _) = Registration::start(RegistryType::PyPi, "demo", true);
    let a = reg.advance(RegistrationEvent::Failed { error: GitHubError::RepoExists });
    assert!(matches!(a, RegistrationAction::FetchUsername));
    let a = reg.advance(RegistrationEvent::Username { login: "me".to_string() });
    match &a {
        RegistrationAction::LookupFile { owner, repo, path } => {
            assert_eq!((owner.as_str(), repo.as_str(), path.as_str()), ("me", "demo", "pyproject.toml"));
        },
        _ => panic!("expected a lookup"),
    }
    let a = reg.advance(RegistrationEvent::FileLookup { exists: present });
    match a {
        RegistrationAction::WriteFile { .. } => {
            let done = reg.advance(RegistrationEvent::FileWritten);
            (true, finished(&done).unwrap().1)
        },
        other => (false, finished(&other).unwrap().1),
    }
}

#[test]
fn ensure_manifest_twice_writes_once() {
    let (wrote, first) = ensure_on_existing(false);
    assert!(wrote);
    assert_eq!(first, "Added pyproject.toml to existing repo");
    let (wrote_again, second) = ensure_on_existing(true);
    assert!(!wrote_again);
    assert_eq!(second, "pyproject.toml already exists in repo");
}

#[test]
fn creation_errors_are_reported() {
    let (mut reg, _) = Registration::start(RegistryType::GitHub, "x", true);
    let a = reg.advance(RegistrationEvent::Failed { error: GitHubError::RateLimited });
    assert_eq!(finished(&a), Some((false, "Rate limited - try again later".to_string())));
    let (mut reg, _) = Registration::start(RegistryType::GitHub, "x", true);
    let a = reg.advance(RegistrationEvent::Failed { error: GitHubError::RepoExists });
    assert_eq!(finished(&a), Some((false, "Repository already exists".to_string())));
    let (mut reg, _) = Registration::start(RegistryType::GitHub, "x", true);
    let a = reg.advance(RegistrationEvent::FileWritten);
    assert_eq!(finished(&a), Some((false, "unexpected reply from GitHub".to_string())));
}

#[test]
fn error_texts() {
    assert_eq!(format_github_error(&GitHubError::AuthRequired), "Authentication required - check your token");
    assert_eq!(format_github_error(&GitHubError::InvalidName), "Invalid repository name");
    assert_eq!(format_github_error(&GitHubError::ApiError("x".to_string())), "API error: x");
    assert_eq!(format_github_error(&GitHubError::NetworkError("down".to_string())), "Network error: down");
}

fn api_error_text(r: Result<(), GitHubError>) -> Option<String> {
    match r {
        Err(GitHubError::ApiError(m)) => Some(m),
        _ => None,
    }
}

#[test]
fn create_repo_answers() {
    assert!(classify_create_repo(201, "").is_ok());
    assert!(matches!(classify_create_repo(401, ""), Err(GitHubError::AuthRequired)));
    assert!(matches!(
        classify_create_repo(422, "{\"message\":\"name already exists on this account\"}"),
        Err(GitHubError::RepoExists)
    ));
    assert!(matches!(classify_create_repo(422, "{\"message\":\"bad\"}"), Err(GitHubError::InvalidName)));
    assert!(matches!(classify_create_repo(403, ""), Err(GitHubError::RateLimited)));
    assert_eq!(api_error_text(classify_create_repo(500, "oops")), Some("oops".to_string()));
}

#[test]
fn file_answers() {
    assert!(matches!(classify_file_lookup(200, ""), Ok(true)));
    assert!(matches!(classify_file_lookup(404, ""), Ok(false)));
    assert!(matches!(classify_file_lookup(401, ""), Err(GitHubError::AuthRequired)));
    assert!(classify_file_write(201, "").is_ok());
    assert!(classify_file_write(200, "").is_ok());
    assert_eq!(api_error_text(classify_file_write(422, "sha")), Some("File operation failed: sha".to_string()));
    assert!(matches!(classify_user_lookup(401), Err(GitHubError::AuthRequired)));
    assert!(classify_user_lookup(200).is_ok());
}

#[test]
fn manifests() {
    assert_eq!(ManifestType::Npm.filename(), "package.json");
    assert_eq!(ManifestType::PyPi.publish_command(), "twine upload");
    let cargo = ManifestType::Crates.generate_content("abc", "d");
    assert_eq!(
        cargo,
        "[package]\nname = \"abc\"\nversion = \"0.0.1\"\nedition = \"2021\"\ndescription = \"d\"\nlicense = \"MIT\"\n\n[dependencies]\n"
    );
    let npm = ManifestType::Npm.generate_content("abc", "d");
    assert!(npm.starts_with("{\n  \"name\": \"abc\",\n"));
    assert!(npm.contains("\"test\": \"echo \\\"Error: no test specified\\\" && exit 1\""));
    let py = ManifestType::PyPi.generate_content("abc", "d");
    assert!(py.ends_with("Homepage = \"https://github.com/OWNER/abc\"\n"));
}
