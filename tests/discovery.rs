use service_discovery::attribute::{AttributeSet, AttributeVerifier};
use service_discovery::discovery::{
    check_existing, Discovery, DiscoveryAction, DiscoveryEvent, OpenMode, ServiceError,
};
use service_discovery::static_config::{Config, StaticConfig};

fn cfg() -> StaticConfig {
    StaticConfig::new(&Config::default())
}

#[test]
fn open_only_starts_with_lookup_and_fails_when_absent() {
    let (mut d, first) = Discovery::new(OpenMode::Open, 1);
    assert_eq!(first, DiscoveryAction::Lookup);
    let a = d.next(DiscoveryEvent::Absent, &cfg(), &AttributeVerifier::new());
    assert_eq!(a, DiscoveryAction::Fail(ServiceError::DoesNotExist));
    assert!(d.is_finished());
}

#[test]
fn create_only_fails_when_present() {
    let (mut d, first) = Discovery::new(OpenMode::Create, 1);
    assert_eq!(first, DiscoveryAction::Create);
    let a = d.next(DiscoveryEvent::LostRace, &cfg(), &AttributeVerifier::new());
    assert_eq!(a, DiscoveryAction::Fail(ServiceError::AlreadyExists));
    let (mut d, _) = Discovery::new(OpenMode::Create, 1);
    let stored = cfg();
    let attrs = AttributeSet::new();
    let a = d.next(DiscoveryEvent::Found(&stored, &attrs), &cfg(), &AttributeVerifier::new());
    assert_eq!(a, DiscoveryAction::Fail(ServiceError::AlreadyExists));
}

#[test]
fn open_or_create_creates_when_absent() {
    let (mut d, first) = Discovery::new(OpenMode::OpenOrCreate, 2);
    assert_eq!(first, DiscoveryAction::Lookup);
    let v = AttributeVerifier::new();
    assert_eq!(d.next(DiscoveryEvent::Absent, &cfg(), &v), DiscoveryAction::Create);
    assert!(!d.is_finished());
    assert_eq!(d.next(DiscoveryEvent::CreatedByUs, &cfg(), &v), DiscoveryAction::Created);
    assert!(d.is_finished());
}

#[test]
fn lost_race_looks_up_again_and_opens() {
    let (mut d, _) = Discovery::new(OpenMode::OpenOrCreate, 1);
    let v = AttributeVerifier::new();
    assert_eq!(d.next(DiscoveryEvent::Absent, &cfg(), &v), DiscoveryAction::Create);
    assert_eq!(d.next(DiscoveryEvent::LostRace, &cfg(), &v), DiscoveryAction::Lookup);
    let stored = cfg();
    let attrs = AttributeSet::new();
    assert_eq!(d.next(DiscoveryEvent::Found(&stored, &attrs), &cfg(), &v), DiscoveryAction::Opened);
}

#[test]
fn creation_race_is_bounded() {
    let (mut d, _) = Discovery::new(OpenMode::OpenOrCreate, 1);
    let v = AttributeVerifier::new();
    assert_eq!(d.next(DiscoveryEvent::Absent, &cfg(), &v), DiscoveryAction::Create);
    assert_eq!(d.next(DiscoveryEvent::LostRace, &cfg(), &v), DiscoveryAction::Lookup);
    assert_eq!(
        d.next(DiscoveryEvent::Absent, &cfg(), &v),
        DiscoveryAction::Fail(ServiceError::ServiceCreationRaceExhausted)
    );
}

#[test]
fn storage_failure_is_reported() {
    let (mut d, _) = Discovery::new(OpenMode::Open, 1);
    assert_eq!(
        d.next(DiscoveryEvent::StorageFailure, &cfg(), &AttributeVerifier::new()),
        DiscoveryAction::Fail(ServiceError::InternalFailure)
    );
}

#[test]
fn existing_service_checks_configuration_before_attributes() {
    let mut config = Config::default();
    config.defaults.publish_subscribe.subscriber_max_buffer_size = 10;
    let too_big = StaticConfig::new(&config);
    let attrs = AttributeSet::new().define("camera_resolution", "1920x1080");
    let wrong = AttributeVerifier::new().require("camera_resolution", "640x480");
    let right = AttributeVerifier::new().require("camera_resolution", "1920x1080");
    assert_eq!(
        check_existing(&cfg(), &attrs, &too_big, &wrong),
        Err(ServiceError::IncompatibleConfiguration)
    );
    assert_eq!(check_existing(&cfg(), &attrs, &cfg(), &wrong), Err(ServiceError::IncompatibleAttributes));
    assert_eq!(check_existing(&cfg(), &attrs, &cfg(), &right), Ok(()));
}
