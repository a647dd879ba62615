use modal::config::{
    default_config_file_name, find_field, select_profile, text_field, ConfigLocation,
    ConnectSettings, EnvSettings, TomlDocument, TomlField, TomlSection,
};

fn env() -> EnvSettings {
    EnvSettings {
        server_url: None,
        token_id: None,
        token_secret: None,
        profile: None,
        config_path: None,
        user_profile: None,
        home: None,
    }
}

fn s(t: &str) -> String {
    t.to_string()
}

fn section(name: &str, fields: &[(&str, TomlField)]) -> TomlSection {
    TomlSection {
        name: s(name),
        fields: Some(
            fields
                .iter()
                .map(|(k, v)| {
                    let v = match v {
                        TomlField::Text(t) => TomlField::Text(t.clone()),
                        TomlField::Flag(b) => TomlField::Flag(*b),
                        TomlField::Other => TomlField::Other,
                    };
                    (s(k), v)
                })
                .collect(),
        ),
    }
}

fn plain(name: &str) -> TomlSection {
    TomlSection { name: s(name), fields: None }
}

fn settings(c: &ConnectSettings) -> (Option<&str>, Option<&str>, Option<&str>) {
    (c.server_url.as_deref(), c.token_id.as_deref(), c.token_secret.as_deref())
}

#[test]
fn config_text_is_parsed_in_key_order() {
    // Keys come out sorted: `default` is the first table, `top` is no table.
    let text = "top = 1\n[work]\ntoken_id = \"w\"\nport = 5\n[default]\ntoken_id = \"d\"\n";
    let mut e = env();
    e.profile = Some(s("nothing-like-it"));
    assert_eq!(settings(&e.settings_from_config_text(Some(text))), (None, Some("d"), None));
    let text = "top = 1\n[work]\ntoken_id = \"w\"\nactive = true\n[default]\ntoken_id = \"d\"\n";
    assert_eq!(settings(&e.settings_from_config_text(Some(text))), (None, Some("w"), None));
}

#[test]
fn config_values_of_other_types_are_ignored() {
    let e = env();
    let text = "[p]\ntoken_id = 5\ntoken_secret = true\nserver_url = [\"a\"]\n";
    assert_eq!(settings(&e.settings_from_config_text(Some(text))), (None, None, None));
    let text = "[p]\nactive = \"true\"\n[q]\nactive = true\ntoken_id = \"q\"\n";
    assert_eq!(settings(&e.settings_from_config_text(Some(text))), (None, Some("q"), None));
}

#[test]
fn malformed_config_is_ignored() {
    let mut e = env();
    e.token_id = Some(s("env-id"));
    assert_eq!(settings(&e.settings_from_config_text(Some("[default\ntoken_id = "))), (None, Some("env-id"), None));
    assert_eq!(settings(&e.settings_from_config_text(Some(""))), (None, Some("env-id"), None));
}

#[test]
fn fields_are_found_by_key() {
    let fields = vec![
        (s("active"), TomlField::Flag(true)),
        (s("port"), TomlField::Other),
        (s("token_id"), TomlField::Text(s("w"))),
    ];
    assert!(matches!(find_field(&fields, "active"), Some(TomlField::Flag(true))));
    assert!(matches!(find_field(&fields, "port"), Some(TomlField::Other)));
    assert!(find_field(&fields, "missing").is_none());
    assert_eq!(text_field(&fields, "token_id"), Some(s("w")));
    assert_eq!(text_field(&fields, "port"), None);
    assert_eq!(text_field(&fields, "missing"), None);
}

#[test]
fn active_profile_wins_over_the_one_asked_for() {
    let doc = TomlDocument {
        sections: vec![
            section("a", &[]),
            section("mine", &[]),
            section("z", &[("active", TomlField::Flag(true))]),
        ],
    };
    assert_eq!(select_profile(&doc, "mine"), Some(2));
}

#[test]
fn profile_asked_for_wins_over_first_table() {
    let doc = TomlDocument {
        sections: vec![plain("x"), section("a", &[]), section("mine", &[("active", TomlField::Flag(false))])],
    };
    assert_eq!(select_profile(&doc, "mine"), Some(2));
}

#[test]
fn earlier_active_profile_wins() {
    let doc = TomlDocument {
        sections: vec![
            plain("x"),
            section("a", &[("active", TomlField::Flag(true))]),
            section("mine", &[]),
        ],
    };
    assert_eq!(select_profile(&doc, "mine"), Some(1));
}

#[test]
fn first_table_is_the_fallback() {
    let doc = TomlDocument {
        sections: vec![
            plain("x"),
            section("a", &[("active", TomlField::Flag(false))]),
            section("b", &[("active", TomlField::Text(s("true")))]),
        ],
    };
    assert_eq!(select_profile(&doc, "default"), Some(1));
}

#[test]
fn no_table_no_profile() {
    let doc = TomlDocument { sections: vec![plain("x"), plain("y")] };
    assert_eq!(select_profile(&doc, "x"), None);
    assert_eq!(select_profile(&TomlDocument { sections: vec![] }, "x"), None);
}

#[test]
fn env_credentials_override_config() {
    let mut e = env();
    e.token_id = Some(s("env-id"));
    e.token_secret = Some(s("env-secret"));
    e.server_url = Some(s("srv"));
    assert!(!e.wants_config_file());
    let text = "[default]\ntoken_id = \"file-id\"\ntoken_secret = \"file-secret\"\nserver_url = \"file-srv\"\n";
    let with_file = e.settings_from_config_text(Some(text));
    let without = e.settings_from_config_text(None);
    assert_eq!(settings(&with_file), (Some("srv"), Some("env-id"), Some("env-secret")));
    assert_eq!(settings(&with_file), settings(&without));
}

#[test]
fn environment_values_take_precedence() {
    let mut e = env();
    e.token_id = Some(s("env-id"));
    e.server_url = Some(s("env-srv"));
    assert!(e.wants_config_file());
    let text = "[default]\ntoken_id = \"file-id\"\ntoken_secret = \"file-secret\"\nserver_url = \"file-srv\"\n";
    let c = e.settings_from_config_text(Some(text));
    assert_eq!(settings(&c), (Some("env-srv"), Some("env-id"), Some("file-secret")));
}

#[test]
fn env_server_url_beats_profile_server_url() {
    let mut e = env();
    e.server_url = Some(s("https://env.example:443"));
    let text = "[default]\ntoken_id = \"ak-d\"\ntoken_secret = \"as-d\"\nserver_url = \"https://cfg.example:443\"\n";
    let c = e.settings_from_config_text(Some(text));
    assert_eq!(settings(&c), (Some("https://env.example:443"), Some("ak-d"), Some("as-d")));
}

#[test]
fn active_profile_is_used_without_modal_profile() {
    let e = env();
    let text = "[default]\ntoken_id = \"ak-d\"\ntoken_secret = \"as-d\"\n[work]\ntoken_id = \"ak-w\"\ntoken_secret = \"as-w\"\nactive = true\n";
    let c = e.settings_from_config_text(Some(text));
    assert_eq!(settings(&c), (None, Some("ak-w"), Some("as-w")));
}

#[test]
fn profile_server_url_is_used() {
    let e = env();
    let text = "[p]\nserver_url = \"http://local:1\"\n";
    let c = e.settings_from_config_text(Some(text));
    assert_eq!(settings(&c), (Some("http://local:1"), None, None));
}

#[test]
fn profile_env_variable_selects_profile() {
    let mut e = env();
    e.profile = Some(s("work"));
    let text = "[default]\ntoken_id = \"d\"\ntoken_secret = \"ds\"\n[work]\ntoken_id = \"w\"\ntoken_secret = \"ws\"\n";
    let c = e.settings_from_config_text(Some(text));
    assert_eq!(settings(&c), (None, Some("w"), Some("ws")));
    assert_eq!(e.wanted_profile(), "work");
    assert_eq!(env().wanted_profile(), "default");
}

#[test]
fn unreadable_or_missing_config_falls_back_to_env() {
    let mut e = env();
    e.token_secret = Some(s("sec"));
    assert_eq!(settings(&e.settings_from_config_text(Some("not toml ["))), (None, None, Some("sec")));
    assert_eq!(settings(&e.settings_from_config_text(None)), (None, None, Some("sec")));
    assert_eq!(settings(&e.settings_from_config_text(Some("x = 1"))), (None, None, Some("sec")));
}

#[test]
fn config_path_overrides_location() {
    let mut e = env();
    assert!(e.config_location().is_none());
    e.config_path = Some(s("/etc/modal.toml"));
    assert!(matches!(e.config_location(), Some(ConfigLocation::Path(p)) if p == "/etc/modal.toml"));
    e.home = Some(s("/home/u"));
    assert!(matches!(e.config_location(), Some(ConfigLocation::Path(p)) if p == "/etc/modal.toml"));
    e.config_path = None;
    assert!(matches!(e.config_location(), Some(ConfigLocation::InHome(h)) if h == "/home/u"));
    e.user_profile = Some(s("C:\\Users\\u"));
    assert!(matches!(e.config_location(), Some(ConfigLocation::InHome(h)) if h == "C:\\Users\\u"));
    assert_eq!(default_config_file_name(), ".modal.toml");
}
