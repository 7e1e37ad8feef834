use service_discovery::attribute::{AttributeSet, AttributeVerifier};
use service_discovery::port_factory::{PortCreateError, PortFactory, ServiceName, UnableToDeliverStrategy};
use service_discovery::registry::ServiceRegistry;
use service_discovery::static_config::{Config, StaticConfig};

fn service(max_publishers: usize, max_subscribers: usize) -> (ServiceRegistry, PortFactory) {
    let mut config = Config::default();
    config.defaults.publish_subscribe.max_publishers = max_publishers;
    config.defaults.publish_subscribe.max_subscribers = max_subscribers;
    config.defaults.publish_subscribe.subscriber_max_buffer_size = 4;
    let mut r = ServiceRegistry::new();
    let f = r
        .create(
            &ServiceName::new("My/Funk/ServiceName"),
            StaticConfig::new(&config),
            AttributeSet::new().define("camera_resolution", "1920x1080"),
            String::from("1234"),
        )
        .unwrap();
    (r, f)
}

#[test]
fn accessors_return_service_state() {
    let (r, f) = service(3, 4);
    assert_eq!(f.name().as_str(), "My/Funk/ServiceName");
    assert_eq!(f.uuid(), "1234");
    assert_eq!(f.service(), 0);
    assert_eq!(f.static_config().max_supported_publishers(), 3);
    assert_eq!(f.static_config().max_supported_subscribers(), 4);
    assert_eq!(f.dynamic_config(&r).number_of_publishers(), 0);
    assert_eq!(f.dynamic_config(&r).number_of_subscribers(), 0);
    assert_eq!(f.attributes().len(), 1);
}

#[test]
fn publisher_beyond_maximum_is_refused() {
    let n = 3;
    let (mut r, f) = service(n, 2);
    for k in 0..n {
        assert!(f.publisher().create(&mut r).is_ok());
        assert_eq!(f.dynamic_config(&r).number_of_publishers(), k + 1);
    }
    assert_eq!(f.publisher().create(&mut r).err(), Some(PortCreateError::ExceedsMaxSupportedPorts));
    assert_eq!(f.dynamic_config(&r).number_of_publishers(), n);
}

#[test]
fn limit_is_shared_by_all_factories_of_a_service() {
    let (mut r, f) = service(1, 2);
    let name = ServiceName::new("My/Funk/ServiceName");
    let g = r.open(&name, f.static_config(), &AttributeVerifier::new()).unwrap();
    assert_eq!(g.service(), f.service());
    assert!(f.publisher().create(&mut r).is_ok());
    assert_eq!(g.publisher().create(&mut r).err(), Some(PortCreateError::ExceedsMaxSupportedPorts));
    assert_eq!(g.dynamic_config(&r).number_of_publishers(), 1);
}

#[test]
fn released_publisher_frees_a_slot() {
    let (mut r, f) = service(1, 2);
    let p = f.publisher().create(&mut r).unwrap();
    assert!(f.publisher().create(&mut r).is_err());
    r.release_publisher(p);
    assert_eq!(f.dynamic_config(&r).number_of_publishers(), 0);
    assert!(f.publisher().create(&mut r).is_ok());
}

#[test]
fn zero_publishers_supported_refuses_first() {
    let (mut r, f) = service(0, 2);
    assert_eq!(f.publisher().create(&mut r).err(), Some(PortCreateError::ExceedsMaxSupportedPorts));
}

#[test]
fn subscriber_beyond_maximum_is_refused() {
    let (mut r, f) = service(2, 2);
    let s = f.subscriber().create(&mut r).unwrap();
    assert_eq!(s.buffer_size(), 4);
    assert!(f.subscriber().create(&mut r).is_ok());
    assert_eq!(f.subscriber().create(&mut r).err(), Some(PortCreateError::ExceedsMaxSupportedPorts));
    assert_eq!(f.dynamic_config(&r).number_of_publishers(), 0);
    r.release_subscriber(s);
    assert_eq!(f.dynamic_config(&r).number_of_subscribers(), 1);
}

#[test]
fn publisher_builder_settings_reach_port() {
    let (mut r, f) = service(2, 2);
    let p = f
        .publisher()
        .max_loaned_samples(6)
        .unable_to_deliver_strategy(UnableToDeliverStrategy::DiscardSample)
        .create(&mut r)
        .unwrap();
    assert_eq!(p.max_loaned_samples(), 6);
    assert_eq!(p.unable_to_deliver_strategy(), UnableToDeliverStrategy::DiscardSample);
    assert_eq!(p.service(), 0);
    let q = f.publisher().create(&mut r).unwrap();
    assert_eq!(q.max_loaned_samples(), 2);
    assert_eq!(q.unable_to_deliver_strategy(), UnableToDeliverStrategy::Block);
}

#[test]
fn subscriber_builder_sets_buffer() {
    let (mut r, f) = service(2, 2);
    let s = f.subscriber().buffer_size(1).create(&mut r).unwrap();
    assert_eq!(s.buffer_size(), 1);
}

#[test]
fn counts_of_other_services_are_untouched() {
    let (mut r, f) = service(2, 2);
    let g = r
        .create(&ServiceName::new("other"), StaticConfig::new(&Config::default()), AttributeSet::new(), String::from("9"))
        .unwrap();
    assert_eq!(g.service(), 1);
    assert!(g.publisher().create(&mut r).is_ok());
    assert_eq!(f.dynamic_config(&r).number_of_publishers(), 0);
    assert_eq!(g.dynamic_config(&r).number_of_publishers(), 1);
}
