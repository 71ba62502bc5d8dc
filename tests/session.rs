use nbi::config::{default_true, Config, ConfigError, RegistrySettings};
use nbi::registration::RegistrationResult;
use nbi::registry::{outcome_from_failure, outcome_from_status, AvailabilityResult, RegistryType};
use nbi::session::{App, Command, InputMode, Key, Screen};

fn free(kind: RegistryType) -> AvailabilityResult {
    outcome_from_status(kind, "n", 404, "404 Not Found")
}

fn taken(kind: RegistryType) -> AvailabilityResult {
    outcome_from_status(kind, "n", 200, "200 OK")
}

fn typed(app: &mut App, text: &str) {
    for c in text.chars() {
        app.handle_key(Key::Char(c));
    }
}

#[test]
fn fresh_session() {
    let app = App::new(Config::default());
    assert_eq!(app.screen, Screen::Search);
    assert_eq!(app.input_mode, InputMode::Editing);
    assert!(app.search_input.is_empty());
    assert!(app.config.registries.npm && app.config.registries.github);
    assert!(default_true());
}

#[test]
fn second_commit_while_searching_starts_nothing() {
    let mut app = App::new(Config::default());
    typed(&mut app, "abc");
    let mut starts = 0;
    match app.handle_key(Key::Enter) {
        Command::StartSearch { query, generation, .. } => {
            assert_eq!(query, "abc");
            assert_eq!(generation, 1);
            starts += 1;
        },
        _ => panic!("expected a search"),
    }
    assert!(app.is_searching);
    // back to editing and commit again while the first search runs
    app.handle_key(Key::Char('i'));
    for _ in 0..3 {
        if let Command::StartSearch { .. } = app.handle_key(Key::Enter) {
            starts += 1;
        }
    }
    assert_eq!(starts, 1);
}

#[test]
fn clamp_after_fewer_results() {
    let mut app = App::new(Config::default());
    app.is_searching = true;
    assert!(app.commit_search(0, vec![free(RegistryType::Npm), free(RegistryType::Crates), free(RegistryType::PyPi)]));
    app.selected_registry = 2;
    app.is_searching = true;
    assert!(app.commit_search(0, vec![taken(RegistryType::Npm), free(RegistryType::Crates)]));
    assert_eq!(app.selected_registry, 0);
    assert!(!app.is_searching);
    assert!(app.commit_search(0, vec![taken(RegistryType::Npm)]));
    assert_eq!(app.selected_registry, 0);
}

#[test]
fn stale_results_are_dropped() {
    let mut app = App::new(Config::default());
    typed(&mut app, "x");
    app.handle_key(Key::Enter);
    assert!(!app.commit_search(7, vec![free(RegistryType::Npm)]));
    assert!(app.is_searching);
    assert!(app.search_results.is_empty());
}

#[test]
fn editing_keys() {
    let mut app = App::new(Config::default());
    typed(&mut app, "ab?q");
    assert_eq!(app.search_input, "ab?q");
    app.handle_key(Key::Backspace);
    assert_eq!(app.search_input, "ab?");
    app.handle_key(Key::Esc);
    assert_eq!(app.input_mode, InputMode::Normal);
    assert!(matches!(app.handle_key(Key::Enter), Command::Nothing));
    assert_eq!(app.input_mode, InputMode::Editing);
    app.handle_key(Key::Esc);
    // empty text: commit does not search
    let mut empty = App::new(Config::default());
    assert!(matches!(empty.handle_key(Key::Enter), Command::Nothing));
    assert_eq!(empty.input_mode, InputMode::Normal);
}

#[test]
fn global_keys() {
    let mut app = App::new(Config::default());
    app.handle_key(Key::Esc);
    app.handle_key(Key::Tab);
    assert_eq!(app.screen, Screen::Register);
    app.handle_key(Key::Tab);
    assert_eq!(app.screen, Screen::Settings);
    app.handle_key(Key::Tab);
    assert_eq!(app.screen, Screen::Search);
    app.handle_key(Key::Char('2'));
    assert_eq!(app.screen, Screen::Register);
    app.handle_key(Key::Char('?'));
    assert!(app.show_help);
    app.handle_key(Key::Esc);
    assert!(!app.show_help && !app.should_quit);
    app.handle_key(Key::Char('q'));
    assert!(app.should_quit);
}

#[test]
fn escape_while_busy_still_quits() {
    let mut app = App::new(Config::default());
    app.input_mode = InputMode::Normal;
    app.is_registering = true;
    app.screen = Screen::Settings;
    app.handle_key(Key::Down);
    assert_eq!(app.selected_setting, 0);
    app.handle_key(Key::Esc);
    assert!(app.should_quit);
}

#[test]
fn register_commit() {
    let mut app = App::new(Config::default());
    app.input_mode = InputMode::Normal;
    app.screen = Screen::Register;
    assert!(matches!(app.handle_key(Key::Enter), Command::Nothing));
    assert_eq!(app.register_status.as_deref(), Some("No registry selected"));
    app.search_results = vec![taken(RegistryType::Npm), free(RegistryType::Crates), free(RegistryType::Debian)];
    app.handle_key(Key::Down);
    app.handle_key(Key::Down);
    assert_eq!(app.selected_registry, 1);
    app.handle_key(Key::Up);
    app.handle_key(Key::Up);
    assert_eq!(app.selected_registry, 0);
    app.handle_key(Key::Down);
    match app.handle_key(Key::Enter) {
        Command::Register { kind, name } => {
            assert_eq!(kind, RegistryType::Debian);
            assert_eq!(name, "n");
        },
        _ => panic!("expected a registration"),
    }
    assert!(app.is_registering);
    assert!(app.register_status.is_none());
    assert!(matches!(app.handle_key(Key::Enter), Command::Nothing));
    app.finish_registration(&RegistrationResult::Error("Rate limited - try again later".to_string()));
    assert!(!app.is_registering);
    assert_eq!(app.register_status.as_deref(), Some("Error: Rate limited - try again later"));
}

#[test]
fn settings_toggle_and_save() {
    let mut app = App::new(Config::default());
    app.input_mode = InputMode::Normal;
    app.screen = Screen::Settings;
    for _ in 0..10 {
        app.handle_key(Key::Down);
    }
    assert_eq!(app.selected_setting, app.registry_count() - 1);
    app.handle_key(Key::Up);
    app.handle_key(Key::Up);
    app.handle_key(Key::Up);
    app.handle_key(Key::Up);
    match app.handle_key(Key::Char(' ')) {
        Command::SaveConfig { config } => {
            assert!(!config.registries.brew);
            assert!(config.registries.npm && config.registries.flatpak);
        },
        _ => panic!("expected a save"),
    }
    app.selected_setting = 7;
    app.toggle_selected_registry();
    assert!(!app.config.registries.github);
    app.selected_setting = 9;
    let before = app.config;
    app.toggle_selected_registry();
    assert_eq!(app.config, before);
}

#[test]
fn symbols_and_availability() {
    assert_eq!(App::get_status_symbol(&free(RegistryType::Npm)), "\u{2713}");
    assert_eq!(App::get_status_symbol(&taken(RegistryType::Npm)), "\u{2717}");
    assert_eq!(App::get_status_symbol(&outcome_from_failure(RegistryType::Npm, "n", "x")), "?");
    let mut app = App::new(Config::default());
    app.search_results = vec![free(RegistryType::Npm), taken(RegistryType::Crates), free(RegistryType::Brew)];
    let avail = app.get_available_registries();
    assert_eq!(avail.len(), 2);
    assert_eq!(avail[1].registry, RegistryType::Brew);
    app.toggle_screen();
    assert_eq!(app.screen, Screen::Register);
}

#[test]
fn token_is_never_stored() {
    let mut c = Config::default();
    let before = c;
    assert_eq!(c.set_github_token("SECRET-REDACTED".to_string()), Err(ConfigError::TokenNotStored));
    assert_eq!(c, before);
    assert!(ConfigError::TokenNotStored.message().contains("GITHUB_TOKEN"));
    let mut s = RegistrySettings::default();
    s.toggle(RegistryType::GitHub);
    assert!(!s.is_enabled(RegistryType::GitHub) && s.is_enabled(RegistryType::Npm));
}
