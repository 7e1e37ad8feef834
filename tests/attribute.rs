use service_discovery::attribute::{AttributeSet, AttributeVerifier};

fn camera() -> AttributeSet {
    AttributeSet::new().define("camera_resolution", "1920x1080")
}

#[test]
fn exact_requirement_met() {
    let v = AttributeVerifier::new().require("camera_resolution", "1920x1080");
    assert!(v.verify(&camera()));
}

#[test]
fn exact_requirement_with_other_value_fails() {
    let v = AttributeVerifier::new().require("camera_resolution", "640x480");
    assert!(!v.verify(&camera()));
}

#[test]
fn missing_key_requirement_fails() {
    let v = AttributeVerifier::new().require_key("missing_key");
    assert!(!v.verify(&camera()));
}

#[test]
fn present_key_requirement_met() {
    let v = AttributeVerifier::new().require_key("camera_resolution");
    assert!(v.verify(&camera()));
}

#[test]
fn no_requirements_accept_anything() {
    let v = AttributeVerifier::new();
    assert!(v.verify(&camera()));
    assert!(v.verify(&AttributeSet::new()));
}

#[test]
fn requirement_order_does_not_matter() {
    let attrs = camera().define("dds_service_mapping", "my_funky_service_name");
    let a = AttributeVerifier::new()
        .require("camera_resolution", "1920x1080")
        .require_key("dds_service_mapping");
    let b = AttributeVerifier::new()
        .require_key("dds_service_mapping")
        .require("camera_resolution", "1920x1080");
    assert!(a.verify(&attrs));
    assert!(b.verify(&attrs));
    assert!(!a.verify(&camera()));
    assert!(!b.verify(&camera()));
}

#[test]
fn set_lookups() {
    let attrs = camera().define("camera_resolution", "640x480");
    assert_eq!(attrs.len(), 2);
    assert!(attrs.contains(&String::from("camera_resolution"), &String::from("640x480")));
    assert!(attrs.contains_key(&String::from("camera_resolution")));
    assert!(!attrs.contains_key(&String::from("other")));
    let copy = attrs.clone();
    assert_eq!(copy.len(), 2);
}
