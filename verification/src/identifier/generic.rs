//! Identifiers of resources that belong to no particular API.

use vstd::prelude::*;
use crate::encodable::TypeValueEncodable;
use crate::identifier::{names_resource, unset, unset_pair, Identifier};
use crate::resource_type::{GENERIC_HANDLE, GENERIC_POINTER, UNKNOWN};
use crate::value::ResourceValue;

verus! {

/// Identifiers used for generic resources.
#[derive(Clone, Copy, Debug, PartialEq, Eq, Structural)]
pub enum GenericIdentifier {
    /// The address of a resource. The resource is neither owned nor read.
    Pointer(usize),
    /// A number that names a resource.
    Handle(u64),
}

impl vstd::std_specs::convert::FromSpecImpl<GenericIdentifier> for Identifier {
    open spec fn obeys_from_spec() -> bool {
        true
    }

    open spec fn from_spec(value: GenericIdentifier) -> Self {
        Identifier::Generic(value)
    }
}

impl From<GenericIdentifier> for Identifier {
    fn from(value: GenericIdentifier) -> (id: Self) {
        Self::Generic(value)
    }
}

impl TypeValueEncodable for GenericIdentifier {
    type Type = u32;

    type Value = ResourceValue;

    /// A pointer goes into the pointer field as it is, a handle into the
    /// integer field as it is, each beside its own code.
    open spec fn encoding(&self) -> (u32, ResourceValue) {
        match *self {
            GenericIdentifier::Pointer(p) => (GENERIC_POINTER, ResourceValue::Pointer(p)),
            GenericIdentifier::Handle(h) => (GENERIC_HANDLE, ResourceValue::Integer(h)),
        }
    }

    open spec fn unset_encoding() -> (u32, ResourceValue) {
        unset_pair()
    }

    fn encode(&self) -> (pair: (u32, ResourceValue))
        ensures
            pair == self.encoding(),
            names_resource(pair),
    {
        match self {
            Self::Pointer(p) => (GENERIC_POINTER, ResourceValue::Pointer(*p)),
            Self::Handle(h) => (GENERIC_HANDLE, ResourceValue::Integer(*h)),
        }
    }

    fn default_encoding() -> (pair: (u32, ResourceValue))
        ensures
            pair == unset_pair(),
            pair.0 == UNKNOWN,
            pair.1 == ResourceValue::Integer(0),
            !names_resource(pair),
    {
        unset()
    }
}

} // verus!
