use opentelemetry::sdk::Resource;
use opentelemetry::{Key, Value};
use otel_resource::env::{env_var, resolve_service_name, resolve_service_version};
use otel_resource::resource::{make_resource, merge_detected, DetectResource, ServiceInfoDetector};
use tracing::log::Level;

fn snapshot(pairs: &[(&str, &str)]) -> Vec<(String, String)> {
    pairs.iter().map(|(k, v)| (k.to_string(), v.to_string())).collect()
}

fn attr(r: &Resource, key: &'static str) -> Option<Value> {
    r.get(Key::new(key))
}

#[test]
fn env_var_finds_the_named_entry() {
    let env = snapshot(&[("A", "1"), ("B", "2")]);
    assert_eq!(env_var(&env, "B"), Some("2".to_string()));
    assert_eq!(env_var(&env, "C"), None);
    assert_eq!(env_var(&Vec::new(), "A"), None);
}

#[test]
fn env_var_takes_the_first_of_equal_names() {
    let env = snapshot(&[("A", "1"), ("A", "2")]);
    assert_eq!(env_var(&env, "A"), Some("1".to_string()));
}

#[test]
fn service_name_precedence() {
    let all = snapshot(&[("APP_NAME", "app"), ("SERVICE_NAME", "svc"), ("OTEL_SERVICE_NAME", "otel")]);
    assert_eq!(resolve_service_name(&all, Some("fb")), Some("otel".to_string()));
    let two = snapshot(&[("APP_NAME", "app"), ("SERVICE_NAME", "svc")]);
    assert_eq!(resolve_service_name(&two, Some("fb")), Some("svc".to_string()));
    let one = snapshot(&[("APP_NAME", "app"), ("OTHER", "x")]);
    assert_eq!(resolve_service_name(&one, Some("fb")), Some("app".to_string()));
}

#[test]
fn service_name_fallback_only_when_unset() {
    let none = snapshot(&[("SERVICE_VERSION", "1.0")]);
    assert_eq!(resolve_service_name(&none, Some("fb")), Some("fb".to_string()));
    assert_eq!(resolve_service_name(&none, None), None);
}

#[test]
fn empty_variable_counts_as_set() {
    let env = snapshot(&[("OTEL_SERVICE_NAME", ""), ("SERVICE_NAME", "svc")]);
    assert_eq!(resolve_service_name(&env, Some("fb")), Some(String::new()));
}

#[test]
fn service_version_precedence() {
    let both = snapshot(&[("APP_VERSION", "2"), ("SERVICE_VERSION", "1")]);
    assert_eq!(resolve_service_version(&both, Some("0")), Some("1".to_string()));
    let app = snapshot(&[("APP_VERSION", "2")]);
    assert_eq!(resolve_service_version(&app, Some("0")), Some("2".to_string()));
    let none = snapshot(&[("APP_NAME", "x")]);
    assert_eq!(resolve_service_version(&none, Some("0")), Some("0".to_string()));
    assert_eq!(resolve_service_version(&none, None), None);
}

#[test]
fn detector_gives_both_attributes() {
    let env = snapshot(&[("SERVICE_NAME", "svc"), ("APP_VERSION", "3.1")]);
    let r = ServiceInfoDetector::new(Some("fb"), Some("0")).detect(&env);
    assert_eq!(r.len(), 2);
    assert_eq!(attr(&r, "service.name"), Some(Value::from("svc")));
    assert_eq!(attr(&r, "service.version"), Some(Value::from("3.1")));
}

#[test]
fn detector_uses_fallbacks() {
    let r = ServiceInfoDetector::new(Some("fb"), Some("0.1")).detect(&Vec::new());
    assert_eq!(attr(&r, "service.name"), Some(Value::from("fb")));
    assert_eq!(attr(&r, "service.version"), Some(Value::from("0.1")));
}

#[test]
fn detector_omits_unknown_attributes() {
    let r = ServiceInfoDetector::new(None, None).detect(&Vec::new());
    assert!(r.is_empty());
    let env = snapshot(&[("APP_NAME", "app")]);
    let r = ServiceInfoDetector::new(None, None).detect(&env);
    assert_eq!(r.len(), 1);
    assert_eq!(attr(&r, "service.name"), Some(Value::from("app")));
    assert_eq!(attr(&r, "service.version"), None);
}

#[test]
fn make_resource_holds_name_and_version() {
    let r = make_resource("shop", "2.0.0");
    assert_eq!(r.len(), 2);
    assert_eq!(attr(&r, "service.name"), Some(Value::from("shop")));
    assert_eq!(attr(&r, "service.version"), Some(Value::from("2.0.0")));
}

#[test]
fn merge_detected_priority() {
    let base = make_resource("base", "1");
    let service = ServiceInfoDetector::new(Some("svc"), None).detect(&Vec::new());
    let os = make_resource("os", "3");
    let r = merge_detected(&base, &service, &Resource::empty());
    assert_eq!(attr(&r, "service.name"), Some(Value::from("svc")));
    assert_eq!(attr(&r, "service.version"), Some(Value::from("1")));
    let r = merge_detected(&base, &service, &os);
    assert_eq!(attr(&r, "service.name"), Some(Value::from("os")));
    assert_eq!(attr(&r, "service.version"), Some(Value::from("3")));
}

#[test]
fn builder_defaults_and_setters() {
    let d = DetectResource::default();
    assert_eq!(d.log_of_resources(), Level::Debug);
    let d = d
        .with_fallback_service_name("name")
        .with_fallback_service_version("1.2.3")
        .with_log_of_resources(Level::Info);
    assert_eq!(d.log_of_resources(), Level::Info);
}

#[test]
fn build_uses_environment_then_fallbacks() {
    let env = snapshot(&[("APP_NAME", "from-env")]);
    let r = DetectResource::default()
        .with_fallback_service_name("name")
        .with_fallback_service_version("1.2.3")
        .build(&env);
    assert_eq!(attr(&r, "service.name"), Some(Value::from("from-env")));
    assert_eq!(attr(&r, "service.version"), Some(Value::from("1.2.3")));
    assert!(attr(&r, "os.type").is_some());
}

#[test]
fn build_without_fallbacks_keeps_sdk_service_name() {
    let r = DetectResource::default().build(&Vec::new());
    assert!(attr(&r, "service.name").is_some());
    assert!(attr(&r, "os.type").is_some());
}
