use service_discovery::attribute::{AttributeSet, AttributeVerifier};
use service_discovery::discovery::ServiceError;
use service_discovery::port_factory::ServiceName;
use service_discovery::registry::{ServiceRecord, ServiceRegistry};
use service_discovery::static_config::{Config, StaticConfig};

fn cfg(buffer: usize) -> StaticConfig {
    let mut config = Config::default();
    config.defaults.publish_subscribe.subscriber_max_buffer_size = buffer;
    StaticConfig::new(&config)
}

fn camera() -> AttributeSet {
    AttributeSet::new().define("camera_resolution", "1920x1080")
}

#[test]
fn open_of_unknown_name_is_not_found() {
    let r = ServiceRegistry::new();
    let name = ServiceName::new("nowhere");
    assert_eq!(r.open(&name, &cfg(2), &AttributeVerifier::new()).err(), Some(ServiceError::DoesNotExist));
}

#[test]
fn create_of_existing_name_already_exists() {
    let mut r = ServiceRegistry::new();
    let name = ServiceName::new("svc");
    assert!(r.create(&name, cfg(2), camera(), String::from("a")).is_ok());
    assert_eq!(
        r.create(&name, cfg(2), camera(), String::from("b")).err(),
        Some(ServiceError::AlreadyExists)
    );
    assert_eq!(r.len(), 1);
}

#[test]
fn second_creator_sees_first_configuration() {
    let mut r = ServiceRegistry::new();
    let first = ServiceRecord {
        name: ServiceName::new("race"),
        uuid: String::from("first"),
        static_config: cfg(7),
        attributes: camera(),
    };
    let second = ServiceRecord {
        name: ServiceName::new("race"),
        uuid: String::from("second"),
        static_config: cfg(3),
        attributes: AttributeSet::new(),
    };
    assert!(r.create_if_absent(first));
    assert!(!r.create_if_absent(second));
    let f = r.open(&ServiceName::new("race"), &cfg(3), &AttributeVerifier::new()).unwrap();
    assert_eq!(f.uuid(), "first");
    assert_eq!(f.static_config().subscriber_max_buffer_size(), 7);
}

#[test]
fn open_or_create_creates_then_opens() {
    let mut r = ServiceRegistry::new();
    let name = ServiceName::new("svc");
    let v = AttributeVerifier::new();
    let f = r.open_or_create(&name, cfg(4), camera(), &v, String::from("one")).unwrap();
    assert_eq!(f.uuid(), "one");
    let g = r.open_or_create(&name, cfg(4), AttributeSet::new(), &v, String::from("two")).unwrap();
    assert_eq!(g.uuid(), "one");
    assert_eq!(g.attributes().len(), 1);
    assert_eq!(r.len(), 1);
}

#[test]
fn buffer_request_above_stored_is_incompatible() {
    let mut r = ServiceRegistry::new();
    let name = ServiceName::new("svc");
    let v = AttributeVerifier::new();
    r.create(&name, cfg(4), camera(), String::from("id")).unwrap();
    assert_eq!(r.open(&name, &cfg(5), &v).err(), Some(ServiceError::IncompatibleConfiguration));
    assert!(r.open(&name, &cfg(4), &v).is_ok());
    assert!(r.open(&name, &cfg(1), &v).is_ok());
    assert_eq!(
        r.open_or_create(&name, cfg(5), camera(), &v, String::from("x")).err(),
        Some(ServiceError::IncompatibleConfiguration)
    );
}

#[test]
fn attribute_requirements_on_open() {
    let mut r = ServiceRegistry::new();
    let name = ServiceName::new("Service/With/Properties");
    r.create(&name, cfg(2), camera(), String::from("id")).unwrap();
    let ok = AttributeVerifier::new().require("camera_resolution", "1920x1080");
    let wrong = AttributeVerifier::new().require("camera_resolution", "640x480");
    let missing = AttributeVerifier::new().require_key("missing_key");
    assert!(r.open(&name, &cfg(2), &ok).is_ok());
    assert_eq!(r.open(&name, &cfg(2), &wrong).err(), Some(ServiceError::IncompatibleAttributes));
    assert_eq!(r.open(&name, &cfg(2), &missing).err(), Some(ServiceError::IncompatibleAttributes));
    assert!(r.open(&name, &cfg(2), &AttributeVerifier::new()).is_ok());
}

#[test]
fn opened_factory_enforces_publisher_limit() {
    let mut r = ServiceRegistry::new();
    let name = ServiceName::new("svc");
    r.create(&name, cfg(2), camera(), String::from("id")).unwrap();
    let f = r.open(&name, &cfg(2), &AttributeVerifier::new()).unwrap();
    let max = f.static_config().max_supported_publishers();
    for _ in 0..max {
        assert!(f.publisher().create(&mut r).is_ok());
    }
    assert!(f.publisher().create(&mut r).is_err());
}
