//! Identifiers of GPU runtime resources.

use vstd::prelude::*;
use crate::encodable::TypeValueEncodable;
use crate::identifier::{names_resource, unset, unset_pair, Identifier};
use crate::resource_type::{CUDART_DEVICE, CUDART_EVENT, CUDART_STREAM, UNKNOWN};
use crate::value::ResourceValue;

verus! {

/// Identifiers used for GPU runtime resources.
///
/// A device is named by its ordinal. A stream or an event is named by its
/// handle, the address of an object that the runtime owns, held as a number
/// and never read through.
#[derive(Clone, Copy, Debug, PartialEq, Eq, Structural)]
pub enum CudaRuntimeIdentifier {
    /// A device, by its ordinal
    Device(i32),
    /// A runtime stream
    Stream(usize),
    /// A runtime event
    Event(usize),
}

/// The number that stands for a device's ordinal in the integer field: the
/// ordinal itself, or, for a negative one, its two's complement in 64 bits.
pub open spec fn ordinal_payload(ordinal: i32) -> u64 {
    if ordinal >= 0 {
        ordinal as u64
    } else {
        (ordinal + 0x1_0000_0000_0000_0000) as u64
    }
}

/// Conversion to 64 unsigned bits gives exactly that number.
pub proof fn lemma_ordinal_payload(ordinal: i32)
    ensures
        ordinal as u64 == ordinal_payload(ordinal),
{
    if ordinal < 0 {
        assert(ordinal < 0i32 ==> (ordinal as u64) >= 0xffff_ffff_8000_0000u64) by (bit_vector);
        assert(ordinal < 0i32 ==> (ordinal as u64) - 0xffff_ffff_8000_0000u64 == (ordinal
            - (-0x8000_0000i32)) as u64) by (bit_vector);
    }
}

/// Two ordinals with one payload are the same ordinal.
pub proof fn lemma_ordinal_payload_is_injective(a: i32, b: i32)
    requires
        ordinal_payload(a) == ordinal_payload(b),
    ensures
        a == b,
{
}

impl vstd::std_specs::convert::FromSpecImpl<CudaRuntimeIdentifier> for Identifier {
    open spec fn obeys_from_spec() -> bool {
        true
    }

    open spec fn from_spec(value: CudaRuntimeIdentifier) -> Self {
        Identifier::CudaRuntime(value)
    }
}

impl From<CudaRuntimeIdentifier> for Identifier {
    fn from(value: CudaRuntimeIdentifier) -> (id: Self) {
        Self::CudaRuntime(value)
    }
}

impl TypeValueEncodable for CudaRuntimeIdentifier {
    type Type = u32;

    type Value = ResourceValue;

    /// A device's ordinal goes into the integer field as it is, a handle into
    /// the pointer field as it is, each beside its own code.
    open spec fn encoding(&self) -> (u32, ResourceValue) {
        match *self {
            CudaRuntimeIdentifier::Device(d) => (
                CUDART_DEVICE,
                ResourceValue::Integer(ordinal_payload(d)),
            ),
            CudaRuntimeIdentifier::Stream(s) => (CUDART_STREAM, ResourceValue::Pointer(s)),
            CudaRuntimeIdentifier::Event(e) => (CUDART_EVENT, ResourceValue::Pointer(e)),
        }
    }

    open spec fn unset_encoding() -> (u32, ResourceValue) {
        unset_pair()
    }

    fn encode(&self) -> (pair: (u32, ResourceValue))
        ensures
            pair == self.encoding(),
            names_resource(pair),
    {
        match self {
            Self::Device(d) => {
                let ordinal: i32 = *d;
                let payload: u64 = #[verifier::truncate] (ordinal as u64);
                proof {
                    lemma_ordinal_payload(ordinal);
                }
                (CUDART_DEVICE, ResourceValue::Integer(payload))
            },
            Self::Stream(s) => (CUDART_STREAM, ResourceValue::Pointer(*s)),
            Self::Event(e) => (CUDART_EVENT, ResourceValue::Pointer(*e)),
        }
    }

    fn default_encoding() -> (pair: (u32, ResourceValue))
        ensures
            pair == unset_pair(),
            pair.0 == UNKNOWN,
            pair.1 == ResourceValue::Integer(0),
            !names_resource(pair),
    {
        unset()
    }
}

} // verus!
