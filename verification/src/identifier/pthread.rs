//! Identifiers of POSIX thread synchronization objects.

use vstd::prelude::*;
use crate::encodable::TypeValueEncodable;
use crate::identifier::{names_resource, unset, unset_pair, Identifier};
use crate::resource_type::{
    PTHREAD_BARRIER, PTHREAD_CONDITION, PTHREAD_MUTEX, PTHREAD_ONCE, PTHREAD_RWLOCK,
    PTHREAD_SPINLOCK, UNKNOWN,
};
use crate::value::ResourceValue;

verus! {

/// Identifiers used for PThread resources.
///
/// Each case holds the address of the native object. The object is neither
/// owned nor read: it has to stay where it is while the identifier is in use.
#[derive(Clone, Copy, Debug, PartialEq, Eq, Structural)]
pub enum PThreadIdentifier {
    /// PThread mutex
    Mutex(usize),
    /// PThread condition variable
    Condition(usize),
    /// PThread rwlock
    RWLock(usize),
    /// PThread barrier
    Barrier(usize),
    /// PThread spinlock
    Spinlock(usize),
    /// PThread once
    Once(usize),
}

impl PThreadIdentifier {
    /// The registry's code for this kind of object.
    pub open spec fn code(self) -> u32 {
        match self {
            PThreadIdentifier::Mutex(_) => PTHREAD_MUTEX,
            PThreadIdentifier::Condition(_) => PTHREAD_CONDITION,
            PThreadIdentifier::RWLock(_) => PTHREAD_RWLOCK,
            PThreadIdentifier::Barrier(_) => PTHREAD_BARRIER,
            PThreadIdentifier::Spinlock(_) => PTHREAD_SPINLOCK,
            PThreadIdentifier::Once(_) => PTHREAD_ONCE,
        }
    }

    /// Whether two identifiers name objects of one kind: two mutexes, two
    /// barriers, and so on.
    pub open spec fn same_kind(self, other: Self) -> bool {
        match (self, other) {
            (PThreadIdentifier::Mutex(_), PThreadIdentifier::Mutex(_)) => true,
            (PThreadIdentifier::Condition(_), PThreadIdentifier::Condition(_)) => true,
            (PThreadIdentifier::RWLock(_), PThreadIdentifier::RWLock(_)) => true,
            (PThreadIdentifier::Barrier(_), PThreadIdentifier::Barrier(_)) => true,
            (PThreadIdentifier::Spinlock(_), PThreadIdentifier::Spinlock(_)) => true,
            (PThreadIdentifier::Once(_), PThreadIdentifier::Once(_)) => true,
            _ => false,
        }
    }

    /// The address of the object.
    pub open spec fn address(self) -> usize {
        match self {
            PThreadIdentifier::Mutex(a) => a,
            PThreadIdentifier::Condition(a) => a,
            PThreadIdentifier::RWLock(a) => a,
            PThreadIdentifier::Barrier(a) => a,
            PThreadIdentifier::Spinlock(a) => a,
            PThreadIdentifier::Once(a) => a,
        }
    }
}

impl vstd::std_specs::convert::FromSpecImpl<PThreadIdentifier> for Identifier {
    open spec fn obeys_from_spec() -> bool {
        true
    }

    open spec fn from_spec(value: PThreadIdentifier) -> Self {
        Identifier::PThread(value)
    }
}

impl From<PThreadIdentifier> for Identifier {
    fn from(value: PThreadIdentifier) -> (id: Self) {
        Self::PThread(value)
    }
}

impl TypeValueEncodable for PThreadIdentifier {
    type Type = u32;

    type Value = ResourceValue;

    /// The code of the kind, beside the object's address in the pointer field.
    open spec fn encoding(&self) -> (u32, ResourceValue) {
        (self.code(), ResourceValue::Pointer(self.address()))
    }

    open spec fn unset_encoding() -> (u32, ResourceValue) {
        unset_pair()
    }

    fn encode(&self) -> (pair: (u32, ResourceValue))
        ensures
            pair == self.encoding(),
            pair.0 == self.code(),
            pair.1 == ResourceValue::Pointer(self.address()),
            names_resource(pair),
    {
        match self {
            Self::Mutex(m) => (PTHREAD_MUTEX, ResourceValue::Pointer(*m)),
            Self::Condition(cv) => (PTHREAD_CONDITION, ResourceValue::Pointer(*cv)),
            Self::RWLock(rwl) => (PTHREAD_RWLOCK, ResourceValue::Pointer(*rwl)),
            Self::Barrier(bar) => (PTHREAD_BARRIER, ResourceValue::Pointer(*bar)),
            Self::Spinlock(s) => (PTHREAD_SPINLOCK, ResourceValue::Pointer(*s)),
            Self::Once(o) => (PTHREAD_ONCE, ResourceValue::Pointer(*o)),
        }
    }

    fn default_encoding() -> (pair: (u32, ResourceValue))
        ensures
            pair == unset_pair(),
            pair.0 == UNKNOWN,
            pair.1 == ResourceValue::Integer(0),
            !names_resource(pair),
    {
        unset()
    }
}

/// Two objects of one kind share their code and are told apart by their
/// addresses alone: the codes are equal exactly when the kinds are, and the
/// payloads are equal exactly when the addresses are.
pub proof fn lemma_kind_and_address(a: PThreadIdentifier, b: PThreadIdentifier)
    ensures
        a.encoding().0 == b.encoding().0 <==> a.same_kind(b),
        a.encoding().1 == b.encoding().1 <==> a.address() == b.address(),
        a.same_kind(b) && a.address() != b.address() ==> a.encoding().0 == b.encoding().0
            && a.encoding().1 != b.encoding().1,
        a.same_kind(b) && a.address() == b.address() ==> a == b && a.encoding() == b.encoding(),
{
}

} // verus!
