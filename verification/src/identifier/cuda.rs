//! Identifiers of GPU driver resources.

use vstd::prelude::*;
use crate::encodable::TypeValueEncodable;
use crate::identifier::{names_resource, unset, unset_pair, Identifier};
use crate::resource_type::{CUDA_CONTEXT, CUDA_EVENT, CUDA_STREAM, UNKNOWN};
use crate::value::ResourceValue;

verus! {

/// Identifiers used for GPU driver resources.
///
/// A driver handle is the address of an object that the driver owns. It is
/// held as a number and never read through.
#[derive(Clone, Copy, Debug, PartialEq, Eq, Structural)]
pub enum CudaIdentifier {
    /// A driver context
    Context(usize),
    /// A driver stream
    Stream(usize),
    /// A driver event
    Event(usize),
}

impl CudaIdentifier {
    /// The registry's code for this kind of handle.
    pub open spec fn code(self) -> u32 {
        match self {
            CudaIdentifier::Context(_) => CUDA_CONTEXT,
            CudaIdentifier::Stream(_) => CUDA_STREAM,
            CudaIdentifier::Event(_) => CUDA_EVENT,
        }
    }

    /// The handle.
    pub open spec fn handle(self) -> usize {
        match self {
            CudaIdentifier::Context(h) => h,
            CudaIdentifier::Stream(h) => h,
            CudaIdentifier::Event(h) => h,
        }
    }
}

impl vstd::std_specs::convert::FromSpecImpl<CudaIdentifier> for Identifier {
    open spec fn obeys_from_spec() -> bool {
        true
    }

    open spec fn from_spec(value: CudaIdentifier) -> Self {
        Identifier::Cuda(value)
    }
}

impl From<CudaIdentifier> for Identifier {
    fn from(value: CudaIdentifier) -> (id: Self) {
        Self::Cuda(value)
    }
}

impl TypeValueEncodable for CudaIdentifier {
    type Type = u32;

    type Value = ResourceValue;

    /// The code of the kind, beside the handle in the pointer field.
    open spec fn encoding(&self) -> (u32, ResourceValue) {
        (self.code(), ResourceValue::Pointer(self.handle()))
    }

    open spec fn unset_encoding() -> (u32, ResourceValue) {
        unset_pair()
    }

    fn encode(&self) -> (pair: (u32, ResourceValue))
        ensures
            pair == self.encoding(),
            pair.0 == self.code(),
            pair.1 == ResourceValue::Pointer(self.handle()),
            names_resource(pair),
    {
        match self {
            Self::Context(c) => (CUDA_CONTEXT, ResourceValue::Pointer(*c)),
            Self::Stream(s) => (CUDA_STREAM, ResourceValue::Pointer(*s)),
            Self::Event(e) => (CUDA_EVENT, ResourceValue::Pointer(*e)),
        }
    }

    fn default_encoding() -> (pair: (u32, ResourceValue))
        ensures
            pair == unset_pair(),
            pair.0 == UNKNOWN,
            pair.1 == ResourceValue::Integer(0),
            !names_resource(pair),
    {
        unset()
    }
}

} // verus!
