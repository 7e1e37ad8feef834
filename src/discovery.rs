//! The create-or-open protocol of a named service, as a state machine.
//!
//! The caller owns the discovery storage: it performs the action that
//! [`Discovery::next`] returns (a lookup by name, or an atomic
//! create-if-absent) and hands the outcome back as the next event, until the
//! machine reaches a terminal action.

use vstd::prelude::*;
use crate::attribute::{satisfies, AttributeSet, AttributeVerifier};
use crate::static_config::{compatible, StaticConfig};

verus! {

/// What the caller accepts as success.
#[derive(Clone, Copy, Debug, PartialEq, Eq, Structural)]
pub enum OpenMode {
    /// Only attach to an existing service.
    Open,
    /// Only create a new service.
    Create,
    /// Attach to an existing service, or create it when there is none.
    OpenOrCreate,
}

/// Why a service could not be opened or created.
#[derive(Clone, Copy, Debug, PartialEq, Eq, Structural)]
pub enum ServiceError {
    /// No service of that name exists.
    DoesNotExist,
    /// A service of that name exists already.
    AlreadyExists,
    /// The stored static configuration does not accept the request.
    IncompatibleConfiguration,
    /// The stored attributes do not meet the requirements.
    IncompatibleAttributes,
    /// The service vanished and was raced for more often than allowed.
    ServiceCreationRaceExhausted,
    /// The discovery storage could not be read or allocated.
    InternalFailure,
}

/// What the discovery storage reported for the last action.
pub enum DiscoveryEvent<'a> {
    /// A lookup found the service, with its stored configuration and
    /// attributes.
    Found(&'a StaticConfig, &'a AttributeSet),
    /// A lookup found no service of that name.
    Absent,
    /// Create-if-absent created the service.
    CreatedByUs,
    /// Create-if-absent found the service already there.
    LostRace,
    /// The storage failed.
    StorageFailure,
}

/// What the caller is to do next.
#[derive(Clone, Copy, Debug, PartialEq, Eq, Structural)]
pub enum DiscoveryAction {
    /// Look the service up by name.
    Lookup,
    /// Create the service if it is absent.
    Create,
    /// Done: attached to the existing service.
    Opened,
    /// Done: this caller created the service.
    Created,
    /// Done: the request failed.
    Fail(ServiceError),
}

/// The outcome of holding a request against an existing service: the
/// configuration is checked first, then the attributes.
pub open spec fn existing_outcome(
    stored: StaticConfig,
    attributes: AttributeSet,
    requested: StaticConfig,
    verifier: AttributeVerifier,
) -> Result<(), ServiceError> {
    if !compatible(stored, requested) {
        Err(ServiceError::IncompatibleConfiguration)
    } else if !satisfies(verifier.spec_pairs(), verifier.spec_keys(), attributes@) {
        Err(ServiceError::IncompatibleAttributes)
    } else {
        Ok(())
    }
}

/// Holds a request against an existing service: its stored configuration
/// must accept `requested` and its attributes must meet `verifier`.
pub fn check_existing(
    stored: &StaticConfig,
    attributes: &AttributeSet,
    requested: &StaticConfig,
    verifier: &AttributeVerifier,
) -> (r: Result<(), ServiceError>)
    ensures
        r == existing_outcome(*stored, *attributes, *requested, *verifier),
{
    if !stored.is_compatible(requested) {
        Err(ServiceError::IncompatibleConfiguration)
    } else if !verifier.verify(attributes) {
        Err(ServiceError::IncompatibleAttributes)
    } else {
        Ok(())
    }
}

/// The state of one open, create or open-or-create request.
#[derive(Clone, Copy, Debug)]
pub struct Discovery {
    mode: OpenMode,
    creation_attempts: u32,
    max_creation_attempts: u32,
    finished: bool,
}

/// The action that follows `event` in a request with mode `mode` that has
/// made `attempts` of its `max_attempts` creation attempts.
pub open spec fn next_action(
    mode: OpenMode,
    attempts: u32,
    max_attempts: u32,
    event: DiscoveryEvent<'_>,
    requested: StaticConfig,
    verifier: AttributeVerifier,
) -> DiscoveryAction {
    match event {
        DiscoveryEvent::Found(stored, attributes) => if mode == OpenMode::Create {
            DiscoveryAction::Fail(ServiceError::AlreadyExists)
        } else {
            match existing_outcome(*stored, *attributes, requested, verifier) {
                Ok(()) => DiscoveryAction::Opened,
                Err(e) => DiscoveryAction::Fail(e),
            }
        },
        DiscoveryEvent::Absent => if mode == OpenMode::Open {
            DiscoveryAction::Fail(ServiceError::DoesNotExist)
        } else if attempts < max_attempts {
            DiscoveryAction::Create
        } else {
            DiscoveryAction::Fail(ServiceError::ServiceCreationRaceExhausted)
        },
        DiscoveryEvent::CreatedByUs => DiscoveryAction::Created,
        DiscoveryEvent::LostRace => if mode == OpenMode::Create {
            DiscoveryAction::Fail(ServiceError::AlreadyExists)
        } else {
            DiscoveryAction::Lookup
        },
        DiscoveryEvent::StorageFailure => DiscoveryAction::Fail(ServiceError::InternalFailure),
    }
}

/// The action is one that ends the request.
pub open spec fn is_terminal(a: DiscoveryAction) -> bool {
    match a {
        DiscoveryAction::Opened | DiscoveryAction::Created | DiscoveryAction::Fail(_) => true,
        _ => false,
    }
}

impl Discovery {
    pub closed spec fn spec_mode(&self) -> OpenMode {
        self.mode
    }

    pub closed spec fn spec_attempts(&self) -> u32 {
        self.creation_attempts
    }

    pub closed spec fn spec_max_attempts(&self) -> u32 {
        self.max_creation_attempts
    }

    pub closed spec fn spec_finished(&self) -> bool {
        self.finished
    }

    /// Starts a request. `max_creation_attempts` bounds how often the
    /// request tries to create a service it found absent. A create-only
    /// request starts with its one creation attempt.
    pub fn new(mode: OpenMode, max_creation_attempts: u32) -> (r: (Discovery, DiscoveryAction))
        ensures
            r.0.spec_mode() == mode,
            r.0.spec_attempts() == (if mode == OpenMode::Create {
                1int
            } else {
                0int
            }),
            r.0.spec_max_attempts() == max_creation_attempts,
            !r.0.spec_finished(),
            r.1 == (if mode == OpenMode::Create {
                DiscoveryAction::Create
            } else {
                DiscoveryAction::Lookup
            }),
    {
        let first = if mode == OpenMode::Create {
            DiscoveryAction::Create
        } else {
            DiscoveryAction::Lookup
        };
        let creation_attempts: u32 = if mode == OpenMode::Create {
            1
        } else {
            0
        };
        (Discovery { mode, creation_attempts, max_creation_attempts, finished: false }, first)
    }

    /// The request has reached a terminal action.
    pub fn is_finished(&self) -> (r: bool)
        ensures
            r == self.spec_finished(),
    {
        self.finished
    }

    /// Takes the outcome of the last action and returns the next one.
    pub fn next(
        &mut self,
        event: DiscoveryEvent<'_>,
        requested: &StaticConfig,
        verifier: &AttributeVerifier,
    ) -> (r: DiscoveryAction)
        requires
            !old(self).spec_finished(),
        ensures
            r == next_action(
                old(self).spec_mode(),
                old(self).spec_attempts(),
                old(self).spec_max_attempts(),
                event,
                *requested,
                *verifier,
            ),
            final(self).spec_mode() == old(self).spec_mode(),
            final(self).spec_max_attempts() == old(self).spec_max_attempts(),
            final(self).spec_attempts() == (if r == DiscoveryAction::Create {
                old(self).spec_attempts() + 1
            } else {
                old(self).spec_attempts() as int
            }),
            final(self).spec_finished() == is_terminal(r),
    {
        let r = match event {
            DiscoveryEvent::Found(stored, attributes) => {
                if self.mode == OpenMode::Create {
                    DiscoveryAction::Fail(ServiceError::AlreadyExists)
                } else {
                    match check_existing(stored, attributes, requested, verifier) {
                        Ok(()) => DiscoveryAction::Opened,
                        Err(e) => DiscoveryAction::Fail(e),
                    }
                }
            },
            DiscoveryEvent::Absent => {
                if self.mode == OpenMode::Open {
                    DiscoveryAction::Fail(ServiceError::DoesNotExist)
                } else if self.creation_attempts < self.max_creation_attempts {
                    self.creation_attempts = self.creation_attempts + 1;
                    DiscoveryAction::Create
                } else {
                    DiscoveryAction::Fail(ServiceError::ServiceCreationRaceExhausted)
                }
            },
            DiscoveryEvent::CreatedByUs => DiscoveryAction::Created,
            DiscoveryEvent::LostRace => {
                if self.mode == OpenMode::Create {
                    DiscoveryAction::Fail(ServiceError::AlreadyExists)
                } else {
                    DiscoveryAction::Lookup
                }
            },
            DiscoveryEvent::StorageFailure => DiscoveryAction::Fail(ServiceError::InternalFailure),
        };
        self.finished = match r {
            DiscoveryAction::Lookup | DiscoveryAction::Create => false,
            _ => true,
        };
        r
    }
}

} // verus!
