//! Coordination-free service discovery for zero-copy publish-subscribe
//! channels: system-wide unique identities, the frozen static configuration
//! of a service, attribute requirements, the create-or-open decision
//! protocol and the port factory that hands out publishers and subscribers.

pub mod unique_system_id;
pub mod static_config;
pub mod attribute;
pub mod discovery;
pub mod port_factory;
pub mod registry;
