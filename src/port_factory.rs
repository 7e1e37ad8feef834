//! The part that turns an opened service into publisher and subscriber
//! ports, bounded by the service's configured maxima.

use vstd::prelude::*;
use crate::attribute::AttributeSet;
use crate::static_config::StaticConfig;

verus! {

/// The name a service is found by. Its character set and length are
/// checked where it comes from; here it is an opaque key.
#[derive(Clone, Debug)]
pub struct ServiceName {
    value: String,
}

impl View for ServiceName {
    type V = Seq<char>;

    closed spec fn view(&self) -> Seq<char> {
        self.value@
    }
}

impl ServiceName {
    pub fn new(name: &str) -> (r: ServiceName)
        ensures
            r@ == name@,
    {
        ServiceName { value: name.to_owned() }
    }

    /// A copy of the name.
    pub fn clone_name(&self) -> (r: ServiceName)
        ensures
            r == *self,
    {
        ServiceName { value: self.value.clone() }
    }

    /// Returns true when both names are the same.
    pub fn is_same(&self, other: &ServiceName) -> (r: bool)
        ensures
            r == (self@ == other@),
    {
        self.value == other.value
    }

    pub fn as_str(&self) -> (r: &str)
        ensures
            r@ == self@,
    {
        self.value.as_str()
    }
}

/// The live participant counts of a service, shared by every factory
/// bound to it.
#[derive(Clone, Copy, Debug, PartialEq, Eq, Structural)]
pub struct DynamicConfig {
    number_of_publishers: usize,
    number_of_subscribers: usize,
}

impl DynamicConfig {
    pub closed spec fn spec_publishers(&self) -> usize {
        self.number_of_publishers
    }

    pub closed spec fn spec_subscribers(&self) -> usize {
        self.number_of_subscribers
    }

    /// No port attached yet.
    pub fn new() -> (r: DynamicConfig)
        ensures
            r.spec_publishers() == 0,
            r.spec_subscribers() == 0,
    {
        DynamicConfig { number_of_publishers: 0, number_of_subscribers: 0 }
    }

    /// The number of attached publishers.
    pub fn number_of_publishers(&self) -> (r: usize)
        ensures
            r == self.spec_publishers(),
    {
        self.number_of_publishers
    }

    /// The number of attached subscribers.
    pub fn number_of_subscribers(&self) -> (r: usize)
        ensures
            r == self.spec_subscribers(),
    {
        self.number_of_subscribers
    }

    /// Counts one more publisher, unless `max` are attached.
    pub(crate) fn try_add_publisher(&mut self, max: usize) -> (r: bool)
        ensures
            final(self).spec_subscribers() == old(self).spec_subscribers(),
            match count_after_request(old(self).spec_publishers() as nat, max as nat) {
                Some(n) => r && final(self).spec_publishers() == n,
                None => !r && *final(self) == *old(self),
            },
    {
        if self.number_of_publishers >= max {
            false
        } else {
            self.number_of_publishers = self.number_of_publishers + 1;
            true
        }
    }

    /// Counts one more subscriber, unless `max` are attached.
    pub(crate) fn try_add_subscriber(&mut self, max: usize) -> (r: bool)
        ensures
            final(self).spec_publishers() == old(self).spec_publishers(),
            match count_after_request(old(self).spec_subscribers() as nat, max as nat) {
                Some(n) => r && final(self).spec_subscribers() == n,
                None => !r && *final(self) == *old(self),
            },
    {
        if self.number_of_subscribers >= max {
            false
        } else {
            self.number_of_subscribers = self.number_of_subscribers + 1;
            true
        }
    }

    /// Counts one publisher less, where any is attached.
    pub(crate) fn remove_publisher(&mut self)
        ensures
            final(self).spec_subscribers() == old(self).spec_subscribers(),
            final(self).spec_publishers() == (if old(self).spec_publishers() > 0 {
                old(self).spec_publishers() - 1
            } else {
                0int
            }),
    {
        if self.number_of_publishers > 0 {
            self.number_of_publishers = self.number_of_publishers - 1;
        }
    }

    /// Counts one subscriber less, where any is attached.
    pub(crate) fn remove_subscriber(&mut self)
        ensures
            final(self).spec_publishers() == old(self).spec_publishers(),
            final(self).spec_subscribers() == (if old(self).spec_subscribers() > 0 {
                old(self).spec_subscribers() - 1
            } else {
                0int
            }),
    {
        if self.number_of_subscribers > 0 {
            self.number_of_subscribers = self.number_of_subscribers - 1;
        }
    }
}

/// What a publisher does when a subscriber's buffer is full.
#[derive(Clone, Copy, Debug, PartialEq, Eq, Structural)]
pub enum UnableToDeliverStrategy {
    /// Wait until the subscriber has room.
    Block,
    /// Drop the sample that could not be delivered.
    DiscardSample,
}

/// Why a port could not be created.
#[derive(Clone, Copy, Debug, PartialEq, Eq, Structural)]
pub enum PortCreateError {
    /// As many ports of that kind are attached as the service supports.
    ExceedsMaxSupportedPorts,
}

/// A publisher port of the service at index `service()` of its registry.
#[derive(Debug)]
pub struct Publisher {
    service: usize,
    max_loaned_samples: usize,
    unable_to_deliver_strategy: UnableToDeliverStrategy,
}

impl Publisher {
    pub closed spec fn spec_service(&self) -> usize {
        self.service
    }

    pub closed spec fn spec_max_loaned_samples(&self) -> usize {
        self.max_loaned_samples
    }

    pub closed spec fn spec_strategy(&self) -> UnableToDeliverStrategy {
        self.unable_to_deliver_strategy
    }

    /// How many samples the publisher may loan at once.
    pub fn max_loaned_samples(&self) -> (r: usize)
        ensures
            r == self.spec_max_loaned_samples(),
    {
        self.max_loaned_samples
    }

    /// What the publisher does when a subscriber's buffer is full.
    pub fn unable_to_deliver_strategy(&self) -> (r: UnableToDeliverStrategy)
        ensures
            r == self.spec_strategy(),
    {
        self.unable_to_deliver_strategy
    }

    /// The index of the publisher's service in its registry.
    pub fn service(&self) -> (r: usize)
        ensures
            r == self.spec_service(),
    {
        self.service
    }
}

/// A subscriber port of the service at index `service()` of its registry.
#[derive(Debug)]
pub struct Subscriber {
    service: usize,
    buffer_size: usize,
}

impl Subscriber {
    pub closed spec fn spec_service(&self) -> usize {
        self.service
    }

    pub closed spec fn spec_buffer_size(&self) -> usize {
        self.buffer_size
    }

    /// How many samples the subscriber buffers.
    pub fn buffer_size(&self) -> (r: usize)
        ensures
            r == self.spec_buffer_size(),
    {
        self.buffer_size
    }

    /// The index of the subscriber's service in its registry.
    pub fn service(&self) -> (r: usize)
        ensures
            r == self.spec_service(),
    {
        self.service
    }
}

/// The live count after one more port of a kind whose maximum is `max` was
/// requested: `None` when the count has reached the maximum.
pub open spec fn count_after_request(count: nat, max: nat) -> Option<nat> {
    if count < max {
        Some(count + 1)
    } else {
        None
    }
}

/// An opened publish-subscribe service, from which ports are made. It is
/// bound to the service at index `service` of a registry, which holds the
/// live counts that all factories of that service share.
#[derive(Debug)]
pub struct PortFactory {
    service: usize,
    name: ServiceName,
    uuid: String,
    static_config: StaticConfig,
    attributes: AttributeSet,
}

impl PortFactory {
    pub closed spec fn spec_service(&self) -> usize {
        self.service
    }

    pub closed spec fn spec_name(&self) -> Seq<char> {
        self.name@
    }

    pub closed spec fn spec_uuid(&self) -> Seq<char> {
        self.uuid@
    }

    pub closed spec fn spec_static_config(&self) -> StaticConfig {
        self.static_config
    }

    pub closed spec fn spec_attributes(&self) -> AttributeSet {
        self.attributes
    }

    /// Binds a factory to the service at index `service` of its registry.
    pub fn new(
        service: usize,
        name: ServiceName,
        uuid: String,
        static_config: StaticConfig,
        attributes: AttributeSet,
    ) -> (r: PortFactory)
        ensures
            r.spec_service() == service,
            r.spec_name() == name@,
            r.spec_uuid() == uuid@,
            r.spec_static_config() == static_config,
            r.spec_attributes() == attributes,
    {
        PortFactory { service, name, uuid, static_config, attributes }
    }

    /// Returns the index of the service in its registry.
    pub fn service(&self) -> (r: usize)
        ensures
            r == self.spec_service(),
    {
        self.service
    }

    /// Returns the name of the service.
    pub fn name(&self) -> (r: &ServiceName)
        ensures
            r@ == self.spec_name(),
    {
        &self.name
    }

    /// Returns the uuid of the service.
    pub fn uuid(&self) -> (r: &str)
        ensures
            r@ == self.spec_uuid(),
    {
        self.uuid.as_str()
    }

    /// Returns the settings that never change during the lifetime of the
    /// service.
    pub fn static_config(&self) -> (r: &StaticConfig)
        ensures
            *r == self.spec_static_config(),
    {
        &self.static_config
    }

    /// Returns the attributes the service was created with.
    pub fn attributes(&self) -> (r: &AttributeSet)
        ensures
            *r == self.spec_attributes(),
    {
        &self.attributes
    }

    /// Returns a builder for a new subscriber port of this service, with the
    /// service's maximum buffer size.
    pub fn subscriber(&self) -> (r: PortFactorySubscriber)
        ensures
            r.spec_service() == self.spec_service(),
            r.spec_buffer_size() == self.spec_static_config().spec_subscriber_max_buffer_size(),
    {
        PortFactorySubscriber {
            service: self.service,
            buffer_size: self.static_config.subscriber_max_buffer_size(),
        }
    }

    /// Returns a builder for a new publisher port of this service, which
    /// loans at most two samples and blocks when it cannot deliver.
    pub fn publisher(&self) -> (r: PortFactoryPublisher)
        ensures
            r.spec_service() == self.spec_service(),
            r.spec_max_loaned_samples() == 2,
            r.spec_strategy() == UnableToDeliverStrategy::Block,
    {
        PortFactoryPublisher {
            service: self.service,
            max_loaned_samples: 2,
            unable_to_deliver_strategy: UnableToDeliverStrategy::Block,
        }
    }
}

/// The settings of a publisher port about to be created.
#[derive(Clone, Copy, Debug)]
pub struct PortFactoryPublisher {
    service: usize,
    max_loaned_samples: usize,
    unable_to_deliver_strategy: UnableToDeliverStrategy,
}

impl PortFactoryPublisher {
    pub closed spec fn spec_service(&self) -> usize {
        self.service
    }

    pub closed spec fn spec_max_loaned_samples(&self) -> usize {
        self.max_loaned_samples
    }

    pub closed spec fn spec_strategy(&self) -> UnableToDeliverStrategy {
        self.unable_to_deliver_strategy
    }

    /// The index of the service the port is for.
    pub fn service(&self) -> (r: usize)
        ensures
            r == self.spec_service(),
    {
        self.service
    }

    /// Sets how many samples the publisher may loan at once.
    pub fn max_loaned_samples(self, value: usize) -> (r: PortFactoryPublisher)
        ensures
            r.spec_service() == self.spec_service(),
            r.spec_max_loaned_samples() == value,
            r.spec_strategy() == self.spec_strategy(),
    {
        PortFactoryPublisher { max_loaned_samples: value, ..self }
    }

    /// Sets what the publisher does when a subscriber's buffer is full.
    pub fn unable_to_deliver_strategy(self, value: UnableToDeliverStrategy) -> (r:
        PortFactoryPublisher)
        ensures
            r.spec_service() == self.spec_service(),
            r.spec_max_loaned_samples() == self.spec_max_loaned_samples(),
            r.spec_strategy() == value,
    {
        PortFactoryPublisher { unable_to_deliver_strategy: value, ..self }
    }

    /// The port these settings describe, once its service has admitted it.
    pub(crate) fn port(&self) -> (r: Publisher)
        ensures
            r.spec_service() == self.spec_service(),
            r.spec_max_loaned_samples() == self.spec_max_loaned_samples(),
            r.spec_strategy() == self.spec_strategy(),
    {
        Publisher {
            service: self.service,
            max_loaned_samples: self.max_loaned_samples,
            unable_to_deliver_strategy: self.unable_to_deliver_strategy,
        }
    }
}

/// The settings of a subscriber port about to be created.
#[derive(Clone, Copy, Debug)]
pub struct PortFactorySubscriber {
    service: usize,
    buffer_size: usize,
}

impl PortFactorySubscriber {
    pub closed spec fn spec_service(&self) -> usize {
        self.service
    }

    pub closed spec fn spec_buffer_size(&self) -> usize {
        self.buffer_size
    }

    /// The index of the service the port is for.
    pub fn service(&self) -> (r: usize)
        ensures
            r == self.spec_service(),
    {
        self.service
    }

    /// Sets how many samples the subscriber buffers.
    pub fn buffer_size(self, value: usize) -> (r: PortFactorySubscriber)
        ensures
            r.spec_service() == self.spec_service(),
            r.spec_buffer_size() == value,
    {
        PortFactorySubscriber { buffer_size: value, ..self }
    }

    /// The port these settings describe, once its service has admitted it.
    pub(crate) fn port(&self) -> (r: Subscriber)
        ensures
            r.spec_service() == self.spec_service(),
            r.spec_buffer_size() == self.spec_buffer_size(),
    {
        Subscriber { service: self.service, buffer_size: self.buffer_size }
    }
}

/// Starting from `count` attached ports of a kind whose maximum is `max`,
/// the count after `n` requests in a row.
pub open spec fn count_after(count: nat, max: nat, n: nat) -> nat
    decreases n,
{
    if n == 0 {
        count
    } else {
        match count_after_request(count_after(count, max, (n - 1) as nat), max) {
            Some(c) => c,
            None => count_after(count, max, (n - 1) as nat),
        }
    }
}

/// On a service that supports `max` ports of a kind and has none attached,
/// each of the first `max` requests in a row is admitted, and every request
/// after those is refused.
pub proof fn lemma_capacity_is_enforced(max: nat, n: nat)
    ensures
        n <= max ==> count_after(0, max, n) == n,
        n <= max ==> (n < max <==> count_after_request(count_after(0, max, n), max) is Some),
        n >= max ==> count_after(0, max, n) == max && count_after_request(count_after(0, max, n), max) is None,
    decreases n,
{
    if n > 0 {
        lemma_capacity_is_enforced(max, (n - 1) as nat);
    }
}

} // verus!
