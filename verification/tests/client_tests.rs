use modal::client::{resolve_server_url, Client, MAX_INLINE_BYTES};
use modal::config::EnvSettings;
use modal::Error;

const MISSING: &str = "Token missing. Could not authenticate client. Set MODAL_TOKEN_ID and MODAL_TOKEN_SECRET environment variables, or configure ~/.modal.toml";

#[test]
fn server_url_precedence() {
    assert_eq!(resolve_server_url(Some("https://a:1"), Some("https://b:2")), "https://a:1");
    assert_eq!(resolve_server_url(None, Some("https://b:2")), "https://b:2");
    assert_eq!(resolve_server_url(None, None), "https://api.modal.com:443");
}

#[test]
fn server_url_gets_a_scheme() {
    assert_eq!(resolve_server_url(Some("api.example.com:443"), None), "https://api.example.com:443");
    assert_eq!(resolve_server_url(Some("http://localhost:8080"), None), "http://localhost:8080");
    assert_eq!(resolve_server_url(Some("grpc://x"), None), "https://grpc://x");
    assert_eq!(resolve_server_url(Some(""), None), "https://");
}

#[test]
fn scheme_is_added_once() {
    let once = resolve_server_url(Some("host:1"), None);
    assert_eq!(resolve_server_url(Some(once.as_str()), None), once);
}

#[test]
fn credentials_from_arguments_or_environment() {
    let c = Client::with_credentials(Some("id"), None, Some("env-id"), Some("env-secret")).unwrap();
    assert_eq!(c.token_id(), Some("id"));
    assert_eq!(c.token_secret(), Some("env-secret"));
    assert_eq!(c.max_inline(), 16 * 1024 * 1024);
    assert_eq!(MAX_INLINE_BYTES, 16777216);
}

#[test]
fn missing_credentials_are_refused() {
    for (a, b, c, d) in [
        (None, None, None, None),
        (Some("id"), None, None, None),
        (None, Some("s"), None, None),
        (None, None, Some("id"), None),
    ] {
        let r = Client::with_credentials(a, b, c, d);
        assert!(matches!(r, Err(Error::Auth(m)) if m == MISSING));
    }
}

#[test]
fn request_metadata_in_order() {
    let c = Client::with_credentials(Some("ak-1"), Some("as-2"), None, None).unwrap();
    let r = c.make_request(42u8, "linux-x86_64", Some("box-1"));
    assert_eq!(r.message, 42);
    let md: Vec<(&str, &str)> = r.metadata.iter().map(|(k, v)| (k.as_str(), v.as_str())).collect();
    assert_eq!(
        md,
        vec![
            ("x-modal-client-version", "1.0.0"),
            ("x-modal-client-type", "7"),
            ("x-modal-libmodal-version", "modal-go/0.1.0"),
            ("x-modal-platform", "linux-x86_64"),
            ("x-modal-node", "box-1"),
            ("x-modal-token-id", "ak-1"),
            ("x-modal-token-secret", "as-2"),
        ]
    );
}

#[test]
fn unfit_credentials_stay_out_of_metadata() {
    let c = Client::with_credentials(Some("bad\nid"), Some("ok\tsecret é"), None, None).unwrap();
    let r = c.make_request((), "linux-x86_64", Some("bad\rnode"));
    let keys: Vec<&str> = r.metadata.iter().map(|(k, _)| k.as_str()).collect();
    assert_eq!(
        keys,
        vec![
            "x-modal-client-version",
            "x-modal-client-type",
            "x-modal-libmodal-version",
            "x-modal-platform",
            "x-modal-token-secret"
        ]
    );
    let c = Client::with_credentials(Some("id"), Some("del\u{7f}"), None, None).unwrap();
    assert_eq!(c.make_request((), "linux-x86_64", None).metadata.len(), 5);
}

#[test]
fn function_lookup_outcomes() {
    let req = Client::function_get_request("echo-app", "echo");
    assert_eq!(req.app_name, "echo-app");
    assert_eq!(req.object_tag, "echo");
    assert_eq!(req.environment_name, "");
    assert_eq!(Client::function_get_result("echo-app", "echo", "fu-1".to_string()), Ok("fu-1".to_string()));
    assert_eq!(
        Client::function_get_result("echo-app", "echo", String::new()),
        Err(Error::FunctionNotFound("Function 'echo' not found in app 'echo-app'".to_string()))
    );
}

#[test]
fn env_credentials_reach_requests() {
    let env = EnvSettings {
        server_url: None,
        token_id: Some("ak-e".to_string()),
        token_secret: Some("as-e".to_string()),
        profile: None,
        config_path: None,
        user_profile: None,
        home: Some("/h".to_string()),
    };
    let text = "[default]\ntoken_id = \"ak-d\"\ntoken_secret = \"as-d\"\nactive = true\n";
    let s = env.settings_from_config_text(Some(text));
    let c = Client::with_credentials(
        s.token_id.as_deref(),
        s.token_secret.as_deref(),
        env.token_id.as_deref(),
        env.token_secret.as_deref(),
    )
    .unwrap();
    let md = c.make_request((), "linux-x86_64", None).metadata;
    let n = md.len();
    assert_eq!(md[n - 2], ("x-modal-token-id".to_string(), "ak-e".to_string()));
    assert_eq!(md[n - 1], ("x-modal-token-secret".to_string(), "as-e".to_string()));
}
