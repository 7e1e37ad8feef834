//! The shape of a publish-subscribe service, frozen when the service is
//! created, and the rule by which an opener's request is held against it.

use vstd::prelude::*;

verus! {

/// Whether a payload has a size fixed at compile time.
#[derive(Clone, Copy, Debug, PartialEq, Eq, Hash, Structural)]
pub enum TypeVariant {
    FixedSize,
    Dynamic,
}

/// Size, alignment and name of the header and payload types of a service.
#[derive(Debug, Eq, Hash)]
pub struct TypeDetails {
    pub variant: TypeVariant,
    pub header_type_name: String,
    pub header_size: usize,
    pub header_alignment: usize,
    pub payload_type_name: String,
    pub payload_size: usize,
    pub payload_alignment: usize,
}

/// Two type descriptions describe the same layout: same variant, sizes and
/// alignments, and for a dynamic payload the same payload type name.
pub open spec fn same_type(a: TypeDetails, b: TypeDetails) -> bool {
    &&& a.variant == b.variant
    &&& a.header_size == b.header_size
    &&& a.header_alignment == b.header_alignment
    &&& a.payload_size == b.payload_size
    &&& a.payload_alignment == b.payload_alignment
    &&& (a.variant == TypeVariant::Dynamic ==> a.payload_type_name@ == b.payload_type_name@)
}

impl Clone for TypeDetails {
    fn clone(&self) -> (r: TypeDetails)
        ensures
            r == *self,
    {
        TypeDetails {
            variant: self.variant,
            header_type_name: self.header_type_name.clone(),
            header_size: self.header_size,
            header_alignment: self.header_alignment,
            payload_type_name: self.payload_type_name.clone(),
            payload_size: self.payload_size,
            payload_alignment: self.payload_alignment,
        }
    }
}

/// Two type descriptions agree in every field, names by their text.
pub open spec fn equal_details(a: TypeDetails, b: TypeDetails) -> bool {
    &&& a.variant == b.variant
    &&& a.header_type_name@ == b.header_type_name@
    &&& a.header_size == b.header_size
    &&& a.header_alignment == b.header_alignment
    &&& a.payload_type_name@ == b.payload_type_name@
    &&& a.payload_size == b.payload_size
    &&& a.payload_alignment == b.payload_alignment
}

impl PartialEq for TypeDetails {
    fn eq(&self, o: &TypeDetails) -> (r: bool) {
        self.variant == o.variant && self.header_type_name == o.header_type_name
            && self.header_size == o.header_size && self.header_alignment == o.header_alignment
            && self.payload_type_name == o.payload_type_name && self.payload_size == o.payload_size
            && self.payload_alignment == o.payload_alignment
    }
}

impl vstd::std_specs::cmp::PartialEqSpecImpl for TypeDetails {
    open spec fn obeys_eq_spec() -> bool {
        true
    }

    open spec fn eq_spec(&self, o: &TypeDetails) -> bool {
        equal_details(*self, *o)
    }
}

impl TypeDetails {
    /// Returns true when `other` describes the same layout as `self`.
    pub fn is_same_type(&self, other: &TypeDetails) -> (r: bool)
        ensures
            r == same_type(*self, *other),
    {
        let same_layout = self.variant == other.variant && self.header_size == other.header_size
            && self.header_alignment == other.header_alignment && self.payload_size
            == other.payload_size && self.payload_alignment == other.payload_alignment;
        if !same_layout {
            false
        } else if self.variant == TypeVariant::Dynamic {
            self.payload_type_name == other.payload_type_name
        } else {
            true
        }
    }
}

/// The process-wide defaults of a publish-subscribe service.
#[derive(Clone, Copy, Debug, PartialEq, Eq, Structural)]
pub struct PublishSubscribeDefaults {
    pub max_subscribers: usize,
    pub max_publishers: usize,
    pub publisher_history_size: usize,
    pub subscriber_max_buffer_size: usize,
    pub subscriber_max_borrowed_samples: usize,
    pub enable_safe_overflow: bool,
}

/// The defaults of each kind of service.
#[derive(Clone, Copy, Debug, PartialEq, Eq, Structural)]
pub struct Defaults {
    pub publish_subscribe: PublishSubscribeDefaults,
}

/// The process-wide settings that new services start from.
#[derive(Clone, Copy, Debug, PartialEq, Eq, Structural)]
pub struct Config {
    pub defaults: Defaults,
}

impl Default for Config {
    fn default() -> (r: Config)
        ensures
            r.defaults.publish_subscribe == (PublishSubscribeDefaults {
                max_subscribers: 8,
                max_publishers: 2,
                publisher_history_size: 1,
                subscriber_max_buffer_size: 2,
                subscriber_max_borrowed_samples: 2,
                enable_safe_overflow: true,
            }),
    {
        Config {
            defaults: Defaults {
                publish_subscribe: PublishSubscribeDefaults {
                    max_subscribers: 8,
                    max_publishers: 2,
                    publisher_history_size: 1,
                    subscriber_max_buffer_size: 2,
                    subscriber_max_borrowed_samples: 2,
                    enable_safe_overflow: true,
                },
            },
        }
    }
}

/// The immutable shape of a publish-subscribe service.
#[derive(Debug, Eq, Hash)]
pub struct StaticConfig {
    max_subscribers: usize,
    max_publishers: usize,
    history_size: usize,
    subscriber_max_buffer_size: usize,
    subscriber_max_borrowed_samples: usize,
    enable_safe_overflow: bool,
    type_details: TypeDetails,
}

/// A stored configuration accepts a requested one: no requested capacity
/// exceeds the stored one, history size and overflow policy are equal, and
/// both describe the same payload type.
pub open spec fn compatible(stored: StaticConfig, requested: StaticConfig) -> bool {
    &&& requested.spec_max_publishers() <= stored.spec_max_publishers()
    &&& requested.spec_max_subscribers() <= stored.spec_max_subscribers()
    &&& requested.spec_subscriber_max_buffer_size() <= stored.spec_subscriber_max_buffer_size()
    &&& requested.spec_subscriber_max_borrowed_samples()
        <= stored.spec_subscriber_max_borrowed_samples()
    &&& requested.spec_history_size() == stored.spec_history_size()
    &&& requested.spec_safe_overflow() == stored.spec_safe_overflow()
    &&& same_type(stored.spec_type_details(), requested.spec_type_details())
}

impl Clone for StaticConfig {
    fn clone(&self) -> (r: StaticConfig)
        ensures
            r == *self,
    {
        StaticConfig { type_details: self.type_details.clone(), ..*self }
    }
}

impl PartialEq for StaticConfig {
    fn eq(&self, o: &StaticConfig) -> (r: bool) {
        self.max_subscribers == o.max_subscribers && self.max_publishers == o.max_publishers
            && self.history_size == o.history_size && self.subscriber_max_buffer_size
            == o.subscriber_max_buffer_size && self.subscriber_max_borrowed_samples
            == o.subscriber_max_borrowed_samples && self.enable_safe_overflow
            == o.enable_safe_overflow && self.type_details == o.type_details
    }
}

impl vstd::std_specs::cmp::PartialEqSpecImpl for StaticConfig {
    open spec fn obeys_eq_spec() -> bool {
        true
    }

    open spec fn eq_spec(&self, o: &StaticConfig) -> bool {
        &&& self.spec_max_subscribers() == o.spec_max_subscribers()
        &&& self.spec_max_publishers() == o.spec_max_publishers()
        &&& self.spec_history_size() == o.spec_history_size()
        &&& self.spec_subscriber_max_buffer_size() == o.spec_subscriber_max_buffer_size()
        &&& self.spec_subscriber_max_borrowed_samples() == o.spec_subscriber_max_borrowed_samples()
        &&& self.spec_safe_overflow() == o.spec_safe_overflow()
        &&& equal_details(self.spec_type_details(), o.spec_type_details())
    }
}

impl StaticConfig {
    pub closed spec fn spec_max_publishers(&self) -> usize {
        self.max_publishers
    }

    pub closed spec fn spec_max_subscribers(&self) -> usize {
        self.max_subscribers
    }

    pub closed spec fn spec_history_size(&self) -> usize {
        self.history_size
    }

    pub closed spec fn spec_subscriber_max_buffer_size(&self) -> usize {
        self.subscriber_max_buffer_size
    }

    pub closed spec fn spec_subscriber_max_borrowed_samples(&self) -> usize {
        self.subscriber_max_borrowed_samples
    }

    pub closed spec fn spec_safe_overflow(&self) -> bool {
        self.enable_safe_overflow
    }

    pub closed spec fn spec_type_details(&self) -> TypeDetails {
        self.type_details
    }

    /// Builds the configuration of a new service from the publish-subscribe
    /// defaults of `config`, with an empty fixed-size type description that
    /// the payload binding fills in.
    pub fn new(config: &Config) -> (r: StaticConfig)
        ensures
            r.spec_max_subscribers() == config.defaults.publish_subscribe.max_subscribers,
            r.spec_max_publishers() == config.defaults.publish_subscribe.max_publishers,
            r.spec_history_size() == config.defaults.publish_subscribe.publisher_history_size,
            r.spec_subscriber_max_buffer_size()
                == config.defaults.publish_subscribe.subscriber_max_buffer_size,
            r.spec_subscriber_max_borrowed_samples()
                == config.defaults.publish_subscribe.subscriber_max_borrowed_samples,
            r.spec_safe_overflow() == config.defaults.publish_subscribe.enable_safe_overflow,
            r.spec_type_details().variant == TypeVariant::FixedSize,
            r.spec_type_details().header_type_name@.len() == 0,
            r.spec_type_details().header_size == 0,
            r.spec_type_details().header_alignment == 0,
            r.spec_type_details().payload_type_name@.len() == 0,
            r.spec_type_details().payload_size == 0,
            r.spec_type_details().payload_alignment == 0,
    {
        let defaults = &config.defaults.publish_subscribe;
        StaticConfig {
            max_subscribers: defaults.max_subscribers,
            max_publishers: defaults.max_publishers,
            history_size: defaults.publisher_history_size,
            subscriber_max_buffer_size: defaults.subscriber_max_buffer_size,
            subscriber_max_borrowed_samples: defaults.subscriber_max_borrowed_samples,
            enable_safe_overflow: defaults.enable_safe_overflow,
            type_details: TypeDetails {
                variant: TypeVariant::FixedSize,
                header_type_name: String::new(),
                header_size: 0,
                header_alignment: 0,
                payload_type_name: String::new(),
                payload_size: 0,
                payload_alignment: 0,
            },
        }
    }

    /// Sets the payload description; used by the payload binding while the
    /// service is being created, before the configuration is published.
    pub fn with_type_details(self, type_details: TypeDetails) -> (r: StaticConfig)
        ensures
            r.spec_type_details() == type_details,
            r.spec_max_publishers() == self.spec_max_publishers(),
            r.spec_max_subscribers() == self.spec_max_subscribers(),
            r.spec_history_size() == self.spec_history_size(),
            r.spec_subscriber_max_buffer_size() == self.spec_subscriber_max_buffer_size(),
            r.spec_subscriber_max_borrowed_samples() == self.spec_subscriber_max_borrowed_samples(),
            r.spec_safe_overflow() == self.spec_safe_overflow(),
    {
        StaticConfig { type_details, ..self }
    }

    /// Returns the maximum supported amount of publisher ports.
    pub fn max_supported_publishers(&self) -> (r: usize)
        ensures
            r == self.spec_max_publishers(),
    {
        self.max_publishers
    }

    /// Returns the maximum supported amount of subscriber ports.
    pub fn max_supported_subscribers(&self) -> (r: usize)
        ensures
            r == self.spec_max_subscribers(),
    {
        self.max_subscribers
    }

    /// Returns the maximum history size that can be requested on connect.
    pub fn history_size(&self) -> (r: usize)
        ensures
            r == self.spec_history_size(),
    {
        self.history_size
    }

    /// Returns the maximum supported buffer size of a subscriber port.
    pub fn subscriber_max_buffer_size(&self) -> (r: usize)
        ensures
            r == self.spec_subscriber_max_buffer_size(),
    {
        self.subscriber_max_buffer_size
    }

    /// Returns how many samples a subscriber port can borrow in parallel at
    /// most.
    pub fn subscriber_max_borrowed_samples(&self) -> (r: usize)
        ensures
            r == self.spec_subscriber_max_borrowed_samples(),
    {
        self.subscriber_max_borrowed_samples
    }

    /// Returns true if the service safely overflows: a publisher then
    /// recycles the oldest sample of a subscriber whose buffer is full.
    pub fn has_safe_overflow(&self) -> (r: bool)
        ensures
            r == self.spec_safe_overflow(),
    {
        self.enable_safe_overflow
    }

    /// Returns the type details of the service.
    pub fn type_details(&self) -> (r: &TypeDetails)
        ensures
            *r == self.spec_type_details(),
    {
        &self.type_details
    }

    /// Returns true when this stored configuration accepts `requested`.
    pub fn is_compatible(&self, requested: &StaticConfig) -> (r: bool)
        ensures
            r == compatible(*self, *requested),
    {
        requested.max_publishers <= self.max_publishers && requested.max_subscribers
            <= self.max_subscribers && requested.subscriber_max_buffer_size
            <= self.subscriber_max_buffer_size && requested.subscriber_max_borrowed_samples
            <= self.subscriber_max_borrowed_samples && requested.history_size == self.history_size
            && requested.enable_safe_overflow == self.enable_safe_overflow
            && self.type_details.is_same_type(&requested.type_details)
    }
}

/// A request that differs from the stored configuration in the subscriber
/// buffer size alone is accepted exactly when it asks for no more than the
/// stored size.
pub proof fn lemma_buffer_size_request(stored: StaticConfig, requested: StaticConfig)
    requires
        requested.spec_max_publishers() == stored.spec_max_publishers(),
        requested.spec_max_subscribers() == stored.spec_max_subscribers(),
        requested.spec_history_size() == stored.spec_history_size(),
        requested.spec_subscriber_max_borrowed_samples()
            == stored.spec_subscriber_max_borrowed_samples(),
        requested.spec_safe_overflow() == stored.spec_safe_overflow(),
        requested.spec_type_details() == stored.spec_type_details(),
    ensures
        compatible(stored, requested) <==> requested.spec_subscriber_max_buffer_size()
            <= stored.spec_subscriber_max_buffer_size(),
{
}

} // verus!
