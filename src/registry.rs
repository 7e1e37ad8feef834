//! A discovery storage held in one process: services by name, each with the
//! static configuration and attributes it was created with and the live
//! port counts that every factory of the service shares, and the
//! open / create / open-or-create requests run against it.

use vstd::prelude::*;
use crate::attribute::{lemma_no_requirements_accepts_all, AttributeSet, AttributeVerifier};
use crate::discovery::{
    existing_outcome, Discovery, DiscoveryAction, DiscoveryEvent, OpenMode, ServiceError,
};
use crate::port_factory::{
    count_after_request, DynamicConfig, PortCreateError, PortFactory, PortFactoryPublisher,
    PortFactorySubscriber, Publisher, ServiceName, Subscriber,
};
use crate::static_config::{compatible, StaticConfig};

verus! {

/// What the storage keeps of one service; written once, when the service is
/// created, and never changed.
#[derive(Debug)]
pub struct ServiceRecord {
    pub name: ServiceName,
    pub uuid: String,
    pub static_config: StaticConfig,
    pub attributes: AttributeSet,
}

/// Some record in `records` has the name `name`.
pub open spec fn holds_name(records: Seq<ServiceRecord>, name: Seq<char>) -> bool {
    exists|i: int| 0 <= i < records.len() && #[trigger] records[i].name@ == name
}

/// The record named `name` (meaningful where `holds_name(records, name)`).
pub open spec fn record_named(records: Seq<ServiceRecord>, name: Seq<char>) -> ServiceRecord {
    records[choose|i: int| 0 <= i < records.len() && #[trigger] records[i].name@ == name]
}

/// No two records share a name.
pub open spec fn names_unique(records: Seq<ServiceRecord>) -> bool {
    forall|i: int, j: int|
        0 <= i < j < records.len() ==> #[trigger] records[i].name@ != #[trigger] records[j].name@
}

/// The records after an atomic create-if-absent of `record`, and whether
/// this call created it.
pub open spec fn after_create(records: Seq<ServiceRecord>, record: ServiceRecord) -> (
    Seq<ServiceRecord>,
    bool,
) {
    if holds_name(records, record.name@) {
        (records, false)
    } else {
        (records.push(record), true)
    }
}

/// A factory is bound to the service at `index` of `records` and hands out
/// what that record holds.
pub open spec fn factory_of(f: PortFactory, records: Seq<ServiceRecord>, index: int) -> bool {
    &&& f.spec_service() == index
    &&& 0 <= index < records.len()
    &&& f.spec_name() == records[index].name@
    &&& f.spec_uuid() == records[index].uuid@
    &&& f.spec_static_config() == records[index].static_config
    &&& f.spec_attributes()@ == records[index].attributes@
}

/// A factory is bound to the service named `name` in `records`.
pub open spec fn factory_for(f: PortFactory, records: Seq<ServiceRecord>, name: Seq<char>) -> bool {
    &&& factory_of(f, records, f.spec_service() as int)
    &&& records[f.spec_service() as int] == record_named(records, name)
    &&& records[f.spec_service() as int].name@ == name
}

/// The live counts `after` keep those of `before` and add services with no
/// port attached.
pub open spec fn counts_kept(before: Seq<DynamicConfig>, after: Seq<DynamicConfig>) -> bool {
    &&& before.len() <= after.len()
    &&& forall|i: int| 0 <= i < before.len() ==> #[trigger] after[i] == before[i]
    &&& forall|i: int|
        before.len() <= i < after.len() ==> (#[trigger] after[i]).spec_publishers() == 0
            && after[i].spec_subscribers() == 0
}

/// The outcome of opening `name` with `requested` and `verifier`.
pub open spec fn open_outcome(
    records: Seq<ServiceRecord>,
    name: Seq<char>,
    requested: StaticConfig,
    verifier: AttributeVerifier,
) -> Result<(), ServiceError> {
    if !holds_name(records, name) {
        Err(ServiceError::DoesNotExist)
    } else {
        let rec = record_named(records, name);
        existing_outcome(rec.static_config, rec.attributes, requested, verifier)
    }
}

/// The services known to this process.
#[derive(Debug)]
pub struct ServiceRegistry {
    records: Vec<ServiceRecord>,
    dynamic_configs: Vec<DynamicConfig>,
}

impl View for ServiceRegistry {
    type V = Seq<ServiceRecord>;

    closed spec fn view(&self) -> Seq<ServiceRecord> {
        self.records@
    }
}

/// Whichever of two creators of one name comes first creates the service;
/// the other is told that it did not and finds the first one's
/// configuration stored under the name.
pub proof fn lemma_single_creator(records: Seq<ServiceRecord>, a: ServiceRecord, b: ServiceRecord)
    requires
        names_unique(records),
        !holds_name(records, a.name@),
        a.name@ == b.name@,
    ensures
        after_create(records, a).1,
        !after_create(after_create(records, a).0, b).1,
        after_create(after_create(records, a).0, b).0 == after_create(records, a).0,
        record_named(after_create(records, a).0, b.name@) == a,
        names_unique(after_create(records, a).0),
{
    let r1 = records.push(a);
    assert(r1[records.len() as int].name@ == b.name@);
    assert(holds_name(r1, b.name@));
    let k = choose|i: int| 0 <= i < r1.len() && #[trigger] r1[i].name@ == b.name@;
    if k < records.len() {
        assert(records[k].name@ == a.name@);
    }
}

impl ServiceRegistry {
    /// The live counts of each service, in the order of the records.
    pub closed spec fn spec_dynamic(&self) -> Seq<DynamicConfig> {
        self.dynamic_configs@
    }

    /// Names are unique, each service has its live counts, and no count
    /// exceeds the maximum its service supports.
    pub open spec fn wf(&self) -> bool {
        &&& names_unique(self@)
        &&& self.spec_dynamic().len() == self@.len()
        &&& forall|i: int|
            0 <= i < self@.len() ==> (#[trigger] self.spec_dynamic()[i]).spec_publishers()
                <= self@[i].static_config.spec_max_publishers()
                && self.spec_dynamic()[i].spec_subscribers()
                <= self@[i].static_config.spec_max_subscribers()
    }

    /// A storage without services.
    pub fn new() -> (r: ServiceRegistry)
        ensures
            r@.len() == 0,
            r.wf(),
    {
        ServiceRegistry { records: Vec::new(), dynamic_configs: Vec::new() }
    }

    /// The number of services.
    pub fn len(&self) -> (r: usize)
        ensures
            r == self@.len(),
    {
        self.records.len()
    }

    /// Finds the service named `name`.
    pub fn lookup(&self, name: &ServiceName) -> (r: Option<usize>)
        requires
            self.wf(),
        ensures
            r is None <==> !holds_name(self@, name@),
            r is Some ==> r->0 < self@.len() && self@[r->0 as int].name@ == name@
                && record_named(self@, name@) == self@[r->0 as int],
    {
        let mut i: usize = 0;
        while i < self.records.len()
            invariant
                i <= self.records.len(),
                self.wf(),
                forall|j: int| 0 <= j < i ==> self.records@[j].name@ != name@,
            decreases self.records.len() - i,
        {
            if self.records[i].name.is_same(name) {
                proof {
                    let k = choose|j: int|
                        0 <= j < self@.len() && #[trigger] self@[j].name@ == name@;
                    assert(self@[i as int].name@ == name@);
                    assert(self@[k].name@ == name@);
                    if k != i as int {
                        assert(k > i);
                        assert(self@[i as int].name@ != self@[k].name@);
                    }
                }
                return Some(i);
            }
            i = i + 1;
        }
        None
    }

    /// Creates the service `record` unless one of its name exists; returns
    /// whether this call created it.
    pub fn create_if_absent(&mut self, record: ServiceRecord) -> (r: bool)
        requires
            old(self).wf(),
        ensures
            final(self).wf(),
            (final(self)@, r) == after_create(old(self)@, record),
            counts_kept(old(self).spec_dynamic(), final(self).spec_dynamic()),
    {
        match self.lookup(&record.name) {
            Some(_) => false,
            None => {
                self.records.push(record);
                self.dynamic_configs.push(DynamicConfig::new());
                assert forall|i: int, j: int|
                    0 <= i < j < self@.len() implies #[trigger] self@[i].name@
                    != #[trigger] self@[j].name@ by {
                    if j == old(self)@.len() {
                        assert(old(self)@[i].name@ != record.name@);
                    }
                }
                true
            },
        }
    }

    /// A factory for the service at `index`.
    fn factory_at(&self, index: usize) -> (r: PortFactory)
        requires
            index < self@.len(),
        ensures
            factory_of(r, self@, index as int),
    {
        let rec = &self.records[index];
        PortFactory::new(
            index,
            rec.name.clone_name(),
            rec.uuid.clone(),
            rec.static_config.clone(),
            rec.attributes.clone(),
        )
    }

    /// Attaches to the existing service `name`, whose stored configuration
    /// must accept `requested` and whose attributes must meet `verifier`.
    pub fn open(
        &self,
        name: &ServiceName,
        requested: &StaticConfig,
        verifier: &AttributeVerifier,
    ) -> (r: Result<PortFactory, ServiceError>)
        requires
            self.wf(),
        ensures
            match open_outcome(self@, name@, *requested, *verifier) {
                Ok(()) => r is Ok && factory_for(r->Ok_0, self@, name@),
                Err(e) => r == Err::<PortFactory, ServiceError>(e),
            },
    {
        let (mut discovery, _) = Discovery::new(OpenMode::Open, 1);
        let found = self.lookup(name);
        match found {
            None => {
                let action = discovery.next(DiscoveryEvent::Absent, requested, verifier);
                assert(action == DiscoveryAction::Fail(ServiceError::DoesNotExist));
                Err(ServiceError::DoesNotExist)
            },
            Some(i) => {
                let rec = &self.records[i];
                let action = discovery.next(
                    DiscoveryEvent::Found(&rec.static_config, &rec.attributes),
                    requested,
                    verifier,
                );
                match action {
                    DiscoveryAction::Fail(e) => Err(e),
                    _ => Ok(self.factory_at(i)),
                }
            },
        }
    }

    /// Creates the service `name` with `config` and `attributes`, stamped
    /// with `uuid`, unless a service of that name exists.
    pub fn create(
        &mut self,
        name: &ServiceName,
        config: StaticConfig,
        attributes: AttributeSet,
        uuid: String,
    ) -> (r: Result<PortFactory, ServiceError>)
        requires
            old(self).wf(),
        ensures
            final(self).wf(),
            counts_kept(old(self).spec_dynamic(), final(self).spec_dynamic()),
            ({
                let rec = ServiceRecord { name: *name, uuid, static_config: config, attributes };
                &&& final(self)@ == after_create(old(self)@, rec).0
                &&& if after_create(old(self)@, rec).1 {
                    r is Ok && factory_of(r->Ok_0, final(self)@, old(self)@.len() as int)
                } else {
                    r == Err::<PortFactory, ServiceError>(ServiceError::AlreadyExists)
                }
            }),
    {
        let (mut discovery, _) = Discovery::new(OpenMode::Create, 1);
        let index = self.records.len();
        let requested = config.clone();
        let record = ServiceRecord { name: name.clone_name(), uuid, static_config: config, attributes };
        let created = self.create_if_absent(record);
        let event = if created {
            DiscoveryEvent::CreatedByUs
        } else {
            DiscoveryEvent::LostRace
        };
        let action = discovery.next(event, &requested, &AttributeVerifier::new());
        match action {
            DiscoveryAction::Created => Ok(self.factory_at(index)),
            _ => Err(ServiceError::AlreadyExists),
        }
    }

    /// Attaches to the service `name` as [`ServiceRegistry::open`] does when
    /// it exists; otherwise creates it with `config` and `attributes`,
    /// stamped with `uuid`.
    pub fn open_or_create(
        &mut self,
        name: &ServiceName,
        config: StaticConfig,
        attributes: AttributeSet,
        verifier: &AttributeVerifier,
        uuid: String,
    ) -> (r: Result<PortFactory, ServiceError>)
        requires
            old(self).wf(),
        ensures
            final(self).wf(),
            counts_kept(old(self).spec_dynamic(), final(self).spec_dynamic()),
            if holds_name(old(self)@, name@) {
                &&& final(self)@ == old(self)@
                &&& match open_outcome(old(self)@, name@, config, *verifier) {
                    Ok(()) => r is Ok && factory_for(r->Ok_0, old(self)@, name@),
                    Err(e) => r == Err::<PortFactory, ServiceError>(e),
                }
            } else {
                let rec = ServiceRecord { name: *name, uuid, static_config: config, attributes };
                &&& final(self)@ == old(self)@.push(rec)
                &&& r is Ok && factory_of(r->Ok_0, final(self)@, old(self)@.len() as int)
            },
    {
        let (mut discovery, _) = Discovery::new(OpenMode::OpenOrCreate, 1);
        match self.lookup(name) {
            Some(i) => {
                let rec = &self.records[i];
                let action = discovery.next(
                    DiscoveryEvent::Found(&rec.static_config, &rec.attributes),
                    &config,
                    verifier,
                );
                match action {
                    DiscoveryAction::Fail(e) => Err(e),
                    _ => Ok(self.factory_at(i)),
                }
            },
            None => {
                let action = discovery.next(DiscoveryEvent::Absent, &config, verifier);
                assert(action == DiscoveryAction::Create);
                let index = self.records.len();
                let requested = config.clone();
                let record = ServiceRecord {
                    name: name.clone_name(),
                    uuid,
                    static_config: config,
                    attributes,
                };
                if self.create_if_absent(record) {
                    let done = discovery.next(DiscoveryEvent::CreatedByUs, &requested, verifier);
                    assert(done == DiscoveryAction::Created);
                    Ok(self.factory_at(index))
                } else {
                    Err(ServiceError::ServiceCreationRaceExhausted)
                }
            },
        }
    }
}


impl ServiceRegistry {
    /// The live counts of the service at `service`.
    pub fn dynamic_config(&self, service: usize) -> (r: &DynamicConfig)
        requires
            self.wf(),
            service < self@.len(),
        ensures
            *r == self.spec_dynamic()[service as int],
    {
        &self.dynamic_configs[service]
    }

    /// Detaches a publisher from its service. The port is consumed; a port
    /// that is dropped without this call stays counted.
    pub fn release_publisher(&mut self, publisher: Publisher)
        requires
            old(self).wf(),
            publisher.spec_service() < old(self)@.len(),
        ensures
            final(self).wf(),
            final(self)@ == old(self)@,
            final(self).spec_dynamic().len() == old(self).spec_dynamic().len(),
            forall|j: int|
                0 <= j < old(self)@.len() && j != publisher.spec_service() ==> #[trigger] final(self).spec_dynamic()[j] == old(self).spec_dynamic()[j],
            ({
                let s = publisher.spec_service() as int;
                let before = old(self).spec_dynamic()[s].spec_publishers();
                &&& final(self).spec_dynamic()[s].spec_subscribers() == old(self).spec_dynamic()[s].spec_subscribers()
                &&& final(self).spec_dynamic()[s].spec_publishers() == (if before > 0 {
                    before - 1
                } else {
                    0int
                })
            }),
    {
        let s = publisher.service();
        let mut dc = self.dynamic_configs[s];
        dc.remove_publisher();
        self.dynamic_configs.set(s, dc);
    }

    /// Detaches a subscriber from its service. The port is consumed; a port
    /// that is dropped without this call stays counted.
    pub fn release_subscriber(&mut self, subscriber: Subscriber)
        requires
            old(self).wf(),
            subscriber.spec_service() < old(self)@.len(),
        ensures
            final(self).wf(),
            final(self)@ == old(self)@,
            final(self).spec_dynamic().len() == old(self).spec_dynamic().len(),
            forall|j: int|
                0 <= j < old(self)@.len() && j != subscriber.spec_service() ==> #[trigger] final(self).spec_dynamic()[j] == old(self).spec_dynamic()[j],
            ({
                let s = subscriber.spec_service() as int;
                let before = old(self).spec_dynamic()[s].spec_subscribers();
                &&& final(self).spec_dynamic()[s].spec_publishers() == old(self).spec_dynamic()[s].spec_publishers()
                &&& final(self).spec_dynamic()[s].spec_subscribers() == (if before > 0 {
                    before - 1
                } else {
                    0int
                })
            }),
    {
        let s = subscriber.service();
        let mut dc = self.dynamic_configs[s];
        dc.remove_subscriber();
        self.dynamic_configs.set(s, dc);
    }
}

impl PortFactory {
    /// Returns the live participant counts of the service, which every
    /// factory of the service shares.
    pub fn dynamic_config<'a>(&self, registry: &'a ServiceRegistry) -> (r: &'a DynamicConfig)
        requires
            registry.wf(),
            self.spec_service() < registry@.len(),
        ensures
            *r == registry.spec_dynamic()[self.spec_service() as int],
    {
        registry.dynamic_config(self.service())
    }
}

impl PortFactoryPublisher {
    /// Attaches a publisher to its service in `registry`, unless as many
    /// publishers are attached to the service, through any of its
    /// factories, as it supports.
    pub fn create(self, registry: &mut ServiceRegistry) -> (r: Result<Publisher, PortCreateError>)
        requires
            old(registry).wf(),
            self.spec_service() < old(registry)@.len(),
        ensures
            final(registry).wf(),
            final(registry)@ == old(registry)@,
            final(registry).spec_dynamic().len() == old(registry).spec_dynamic().len(),
            forall|j: int|
                0 <= j < old(registry)@.len() && j != self.spec_service() ==> #[trigger] final(registry).spec_dynamic()[j] == old(registry).spec_dynamic()[j],
            ({
                let s = self.spec_service() as int;
                &&& final(registry).spec_dynamic()[s].spec_subscribers() == old(registry).spec_dynamic()[s].spec_subscribers()
                &&& match count_after_request(
                    old(registry).spec_dynamic()[s].spec_publishers() as nat,
                    old(registry)@[s].static_config.spec_max_publishers() as nat,
                ) {
                    Some(n) => r is Ok && r->Ok_0.spec_service() == self.spec_service()
                        && r->Ok_0.spec_max_loaned_samples() == self.spec_max_loaned_samples()
                        && r->Ok_0.spec_strategy() == self.spec_strategy()
                        && final(registry).spec_dynamic()[s].spec_publishers() == n,
                    None => r == Err::<Publisher, PortCreateError>(
                        PortCreateError::ExceedsMaxSupportedPorts,
                    ) && final(registry).spec_dynamic()[s] == old(registry).spec_dynamic()[s],
                }
            }),
    {
        let s = self.service();
        let max = registry.records[s].static_config.max_supported_publishers();
        let mut dc = registry.dynamic_configs[s];
        let admitted = dc.try_add_publisher(max);
        registry.dynamic_configs.set(s, dc);
        if admitted {
            Ok(self.port())
        } else {
            Err(PortCreateError::ExceedsMaxSupportedPorts)
        }
    }
}

impl PortFactorySubscriber {
    /// Attaches a subscriber to its service in `registry`, unless as many
    /// subscribers are attached to the service, through any of its
    /// factories, as it supports.
    pub fn create(self, registry: &mut ServiceRegistry) -> (r: Result<Subscriber, PortCreateError>)
        requires
            old(registry).wf(),
            self.spec_service() < old(registry)@.len(),
        ensures
            final(registry).wf(),
            final(registry)@ == old(registry)@,
            final(registry).spec_dynamic().len() == old(registry).spec_dynamic().len(),
            forall|j: int|
                0 <= j < old(registry)@.len() && j != self.spec_service() ==> #[trigger] final(registry).spec_dynamic()[j] == old(registry).spec_dynamic()[j],
            ({
                let s = self.spec_service() as int;
                &&& final(registry).spec_dynamic()[s].spec_publishers() == old(registry).spec_dynamic()[s].spec_publishers()
                &&& match count_after_request(
                    old(registry).spec_dynamic()[s].spec_subscribers() as nat,
                    old(registry)@[s].static_config.spec_max_subscribers() as nat,
                ) {
                    Some(n) => r is Ok && r->Ok_0.spec_service() == self.spec_service()
                        && r->Ok_0.spec_buffer_size() == self.spec_buffer_size()
                        && final(registry).spec_dynamic()[s].spec_subscribers() == n,
                    None => r == Err::<Subscriber, PortCreateError>(
                        PortCreateError::ExceedsMaxSupportedPorts,
                    ) && final(registry).spec_dynamic()[s] == old(registry).spec_dynamic()[s],
                }
            }),
    {
        let s = self.service();
        let max = registry.records[s].static_config.max_supported_subscribers();
        let mut dc = registry.dynamic_configs[s];
        let admitted = dc.try_add_subscriber(max);
        registry.dynamic_configs.set(s, dc);
        if admitted {
            Ok(self.port())
        } else {
            Err(PortCreateError::ExceedsMaxSupportedPorts)
        }
    }
}


/// Opening a name that no service has fails with `DoesNotExist`.
pub proof fn lemma_open_of_absent_name(
    records: Seq<ServiceRecord>,
    name: Seq<char>,
    requested: StaticConfig,
    verifier: AttributeVerifier,
)
    requires
        !holds_name(records, name),
    ensures
        open_outcome(records, name, requested, verifier) == Err::<(), ServiceError>(
            ServiceError::DoesNotExist,
        ),
{
}

/// Creating a name that a service already has leaves the records as they
/// are and reports that this call did not create it.
pub proof fn lemma_create_of_taken_name(records: Seq<ServiceRecord>, record: ServiceRecord)
    requires
        holds_name(records, record.name@),
    ensures
        after_create(records, record) == (records, false),
{
}

/// An opener without attribute requirements, whose configuration the
/// stored one accepts, opens the service whatever attributes it holds.
pub proof fn lemma_open_without_requirements(
    records: Seq<ServiceRecord>,
    name: Seq<char>,
    requested: StaticConfig,
    verifier: AttributeVerifier,
)
    requires
        holds_name(records, name),
        compatible(record_named(records, name).static_config, requested),
        verifier.spec_pairs().len() == 0,
        verifier.spec_keys().len() == 0,
    ensures
        open_outcome(records, name, requested, verifier) == Ok::<(), ServiceError>(()),
{
    let attrs = record_named(records, name).attributes@;
    lemma_no_requirements_accepts_all(attrs);
    assert(verifier.spec_pairs() =~= Seq::empty());
    assert(verifier.spec_keys() =~= Seq::empty());
}

/// Opening with a subscriber buffer larger than the stored one fails with
/// `IncompatibleConfiguration`, whatever the attribute requirements.
pub proof fn lemma_open_with_larger_buffer(
    records: Seq<ServiceRecord>,
    name: Seq<char>,
    requested: StaticConfig,
    verifier: AttributeVerifier,
)
    requires
        holds_name(records, name),
        requested.spec_subscriber_max_buffer_size() > record_named(
            records,
            name,
        ).static_config.spec_subscriber_max_buffer_size(),
    ensures
        open_outcome(records, name, requested, verifier) == Err::<(), ServiceError>(
            ServiceError::IncompatibleConfiguration,
        ),
{
}

} // verus!
