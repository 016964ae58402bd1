use unnamed::app::key::{default_key_config, merge_key_config, KeyConfig, KeyHandler, KeyModifiers, KeyShortcut};
use unnamed::app::scope::Scope;
use unnamed::app::user_command::UserCommand;

fn ks(s: &str) -> KeyShortcut {
    KeyShortcut::parse(s).unwrap()
}

fn mods(alt: bool, ctrl: bool) -> KeyModifiers {
    KeyModifiers { alt, ctrl, shift: false, mac_cmd: false, command: false }
}

#[test]
fn parses_keys_and_modifiers() {
    let k = ks("Down");
    assert_eq!(k.modifiers, KeyModifiers::none());
    assert_eq!(k.key, "Down");
    let k = ks("Alt-Down");
    assert_eq!(k.modifiers, mods(true, false));
    assert_eq!(k.key, "Down");
    let k = ks("Ctrl-Alt-A");
    assert_eq!(k.modifiers, mods(true, true));
    assert_eq!(k.key, "A");
    // aliases are read as egui names them
    assert_eq!(ks("C-Esc").key, "Escape");
    assert_eq!(ks("C-Esc").modifiers, mods(false, true));
    assert_eq!(ks("M-S-x").modifiers, KeyModifiers { alt: false, ctrl: false, shift: true, mac_cmd: false, command: true });
}

#[test]
fn parse_errors_name_the_culprit() {
    assert_eq!(KeyShortcut::parse("C--").err().unwrap(), "Unknown modifier: ");
    assert_eq!(KeyShortcut::parse("C-*").err().unwrap(), "No key specified");
    assert_eq!(KeyShortcut::parse("C-*-A").err().unwrap(), "Unknown modifier: *");
    assert_eq!(KeyShortcut::parse("Ctrl-C-A").err().unwrap(), "Duplicate modifier: C");
    assert!("Ctrl-Q".parse::<KeyShortcut>().is_ok());
}

#[test]
fn formats_as_the_configuration_writes() {
    assert_eq!(ks("Down").format_string(), "Down");
    assert_eq!(ks("Alt-Down").format_string(), "Alt-Down");
    assert_eq!(ks("Ctrl-Alt-A").format_string(), "Ctrl-Alt-A");
    assert_eq!(ks("A-C-S-M-Tab").format_string(), "Ctrl-Alt-Shift-Cmd-Tab");
}

#[test]
fn format_then_parse_gives_the_shortcut_back() {
    for s in ["Down", "Alt-Down", "Ctrl-Alt-A", "S-M-F11", "Opt-Minus"] {
        let k = ks(s);
        let again = ks(&k.format_string());
        assert_eq!(again.modifiers, k.modifiers);
        assert_eq!(again.key, k.key);
    }
}

#[test]
fn default_bindings() {
    let c = default_key_config();
    assert_eq!(c.get(Scope::Global, &ks("Ctrl-Q")), Some(UserCommand::QuitApplication));
    assert_eq!(c.get(Scope::Global, &ks("F11")), Some(UserCommand::ToggleFullScreen));
    assert_eq!(c.get(Scope::Global, &ks("Tab")), Some(UserCommand::ToggleSearchMode));
    assert_eq!(c.get(Scope::Main, &ks("C-J")), Some(UserCommand::NextItem));
    assert_eq!(c.get(Scope::SearchBarCompletion, &ks("Esc")), Some(UserCommand::CancelCompletion));
    assert_eq!(c.get(Scope::SearchBarCompletion, &ks("Enter")), Some(UserCommand::ApplyCompletion));
    assert_eq!(c.get(Scope::SearchBar, &ks("Enter")), Some(UserCommand::StartSearch));
    assert_eq!(c.get(Scope::SearchBar, &ks("Down")), None);
}

#[test]
fn merging_overrides_and_adds() {
    let mut base = default_key_config();
    let mut delta = KeyConfig::new();
    assert!(!delta.insert(Scope::Global, ks("C-Q"), UserCommand::NextItem));
    assert!(delta.insert(Scope::Global, ks("Ctrl-Q"), UserCommand::NextItem));
    delta.insert(Scope::Main, ks("Ctrl-X"), UserCommand::NoOp);
    merge_key_config(&mut base, delta);
    assert_eq!(base.get(Scope::Global, &ks("Ctrl-Q")), Some(UserCommand::NextItem));
    assert_eq!(base.get(Scope::Main, &ks("Ctrl-X")), Some(UserCommand::NoOp));
    assert_eq!(base.get(Scope::Global, &ks("Tab")), Some(UserCommand::ToggleSearchMode));
}

#[test]
fn handler_offers_bindings_from_the_scope_outwards() {
    let h = KeyHandler::new(default_key_config());
    let c = h.candidates(&Scope::SearchBar);
    let scopes: Vec<Scope> = c.iter().map(|b| b.scope).collect();
    assert_eq!(scopes.first(), Some(&Scope::SearchBar));
    assert_eq!(scopes.last(), Some(&Scope::Global));
    assert_eq!(c.len(), 1 + 6 + 3);
    assert!(scopes.windows(2).all(|w| !(w[0] == Scope::Global && w[1] != Scope::Global)));
}

/// The commands as a configuration file names them.
fn command_named(name: &str) -> UserCommand {
    match name {
        "quit-application" => UserCommand::QuitApplication,
        "toggle-full-screen" => UserCommand::ToggleFullScreen,
        "toggle-search-mode" => UserCommand::ToggleSearchMode,
        "next-item" => UserCommand::NextItem,
        "prev-item" => UserCommand::PrevItem,
        "cancel-completion" => UserCommand::CancelCompletion,
        "apply-completion" => UserCommand::ApplyCompletion,
        "start-search" => UserCommand::StartSearch,
        "none" => UserCommand::NoOp,
        other => panic!("unknown command {other}"),
    }
}

fn scope_named(name: &str) -> Scope {
    match name {
        "global" => Scope::Global,
        "main" => Scope::Main,
        "search-bar" => Scope::SearchBar,
        "search-bar-completion" => Scope::SearchBarCompletion,
        other => panic!("unknown scope {other}"),
    }
}

#[test]
fn test_key_config_merging() {
    const USER_CONFIG: &'static str = r#"
        [keys.global]
        "C-Q" = "next-item"
        "#;

    let table: toml::Table = toml::from_str(USER_CONFIG).expect("Failed to load config");
    let mut delta = KeyConfig::new();
    for (scope, bindings) in table["keys"].as_table().unwrap() {
        for (shortcut, command) in bindings.as_table().unwrap() {
            delta.insert(scope_named(scope), ks(shortcut), command_named(command.as_str().unwrap()));
        }
    }
    let mut keys = default_key_config();
    merge_key_config(&mut keys, delta);

    let target_key = KeyShortcut { modifiers: mods(false, true), key: "Q".to_string() };
    let command = keys.get(Scope::Global, &target_key);
    assert_eq!(command, Some(UserCommand::NextItem));
}
