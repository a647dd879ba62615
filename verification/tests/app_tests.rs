use std::collections::HashMap;

use modal::app::{AppState, ObjectCreationType};
use modal::function::Function;
use modal::{App, Error};

fn tags(pairs: &[(&str, &str)]) -> HashMap<String, String> {
    pairs.iter().map(|(k, v)| (k.to_string(), v.to_string())).collect()
}

#[test]
fn new_app_has_a_name_only() {
    let app = App::with_name("my-app");
    assert_eq!(app.name(), Some("my-app"));
    assert_eq!(app.app_id(), None);
    assert!(app.tags().is_empty());
}

#[test]
fn lookup_prefers_deployed_apps() {
    let req = App::deployment_lookup_request("my-app");
    assert_eq!(req.name, "my-app");
    assert_eq!(req.environment_name, "");
    let app = App::from_deployment_lookup("my-app", "ap-1".to_string()).unwrap();
    assert_eq!(app.app_id(), Some("ap-1"));
    assert_eq!(app.name(), Some("my-app"));
    assert!(app.tags().is_empty());
    assert!(App::from_deployment_lookup("my-app", String::new()).is_none());
}

#[test]
fn lookup_falls_back_without_creating() {
    let req = App::fallback_lookup_request("my-app");
    assert_eq!(req.app_name, "my-app");
    assert_eq!(req.object_creation_type, ObjectCreationType::Unspecified);
    let app = App::from_fallback_lookup("my-app", "ap-2".to_string()).unwrap();
    assert_eq!(app.app_id(), Some("ap-2"));
    assert!(matches!(App::from_fallback_lookup("my-app", String::new()),
        Err(Error::Other(m)) if m == "App 'my-app' not found"));
}

#[test]
fn lookup_or_create_creates() {
    let req = App::get_or_create_request("new-app");
    assert_eq!(req.app_name, "new-app");
    assert_eq!(req.environment_name, "");
    assert_eq!(req.object_creation_type, ObjectCreationType::CreateIfMissing);
    assert_eq!(App::from_get_or_create("new-app", "ap-3".to_string()).unwrap().app_id(), Some("ap-3"));
    assert!(matches!(App::from_get_or_create("new-app", String::new()),
        Err(Error::Other(m)) if m == "Failed to create or get app 'new-app'"));
}

#[test]
fn deploy_publishes_with_name_tags_and_ids() {
    let mut app = App::with_name("svc");
    app.set_tags(tags(&[("team", "ml")]));
    let req = app.deploy_request().unwrap();
    assert_eq!(req.app_name, "svc");
    assert_eq!(req.object_creation_type, ObjectCreationType::CreateIfMissing);
    let publish = app.finish_deploy("ap-9".to_string(), Some("v1"), Some(tags(&[("f", "fu-1")])), None);
    assert_eq!(app.app_id(), Some("ap-9"));
    assert_eq!(publish.app_id, "ap-9");
    assert_eq!(publish.name, "svc");
    assert_eq!(publish.tags, tags(&[("team", "ml")]));
    assert_eq!(publish.deployment_tag, "v1");
    assert_eq!(publish.app_state, AppState::Deployed);
    assert_eq!(publish.function_ids, tags(&[("f", "fu-1")]));
    assert!(publish.class_ids.is_empty());
    assert!(publish.definition_ids.is_empty());
    assert_eq!(publish.rollback_version, 0);
    assert_eq!(publish.client_version, "");
}

#[test]
fn deploy_keeps_even_an_empty_id() {
    let mut app = App::with_name("svc");
    let publish = app.finish_deploy(String::new(), None, None, None);
    assert_eq!(app.app_id(), Some(""));
    assert_eq!(publish.deployment_tag, "");
}

#[test]
fn tags_need_a_deployed_app() {
    let app = App::with_name("svc");
    assert!(matches!(app.set_tags_request(&tags(&[("a", "b")])),
        Err(Error::Other(m)) if m == "App must be deployed before updating tags"));
    assert!(matches!(app.get_tags_request(),
        Err(Error::Other(m)) if m == "App must be deployed before getting tags"));
    let app = App::from_get_or_create("svc", "ap-5".to_string()).unwrap();
    let req = app.set_tags_request(&tags(&[("a", "b")])).unwrap();
    assert_eq!(req.app_id, "ap-5");
    assert_eq!(req.tags, tags(&[("a", "b")]));
    assert_eq!(app.get_tags_request().unwrap().app_id, "ap-5");
}

#[test]
fn set_tags_then_tags_round_trip() {
    let mut app = App::with_name("svc");
    let t = tags(&[("k", "v"), ("x", "y")]);
    app.set_tags(t.clone());
    assert_eq!(app.tags(), &t);
    assert_eq!(app.name(), Some("svc"));
    assert_eq!(app.app_id(), None);
}

#[test]
fn functions_by_id_and_by_name() {
    let f = Function::from_id("fu-1".to_string());
    assert_eq!(f.function_id(), "fu-1");
    assert_eq!(f.name(), None);
    let f = Function::from_lookup("fu-2".to_string(), "echo");
    assert_eq!(f.function_id(), "fu-2");
    assert_eq!(f.name(), Some("echo"));
}
