//! The identifier of a resource, whatever its domain.

pub mod cuda;
pub mod cuda_runtime;
pub mod generic;
pub mod pthread;

pub use cuda::CudaIdentifier;
pub use cuda_runtime::CudaRuntimeIdentifier;
pub use generic::GenericIdentifier;
pub use pthread::PThreadIdentifier;

use vstd::prelude::*;
use vstd::std_specs::convert::FromSpec;
use crate::encodable::TypeValueEncodable;
use crate::identifier::cuda_runtime::{lemma_ordinal_payload_is_injective, ordinal_payload};
use crate::resource_type::{
    is_resource_code, selects_integer, selects_pointer, CUDART_DEVICE, CUDART_EVENT, CUDART_STREAM,
    GENERIC_HANDLE, GENERIC_POINTER, UNKNOWN,
};
use crate::value::ResourceValue;

verus! {

/// Whether a pair names a resource as the tracer expects: the code is one of
/// the registry's resource codes, and the payload fills the field that this
/// code selects.
pub open spec fn names_resource(pair: (u32, ResourceValue)) -> bool {
    match pair.1 {
        ResourceValue::Integer(_) => selects_integer(pair.0),
        ResourceValue::Pointer(_) => selects_pointer(pair.0),
    }
}

/// The pair that stands where no resource was named: `UNKNOWN` beside the
/// zero integer.
pub open spec fn unset_pair() -> (u32, ResourceValue) {
    (UNKNOWN, ResourceValue::Integer(0))
}

/// The pair that every identifier type gives as its default.
pub fn unset() -> (pair: (u32, ResourceValue))
    ensures
        pair == unset_pair(),
{
    (UNKNOWN, ResourceValue::Integer(0))
}

/// Identifier used for supported resource types.
#[non_exhaustive]
#[derive(Clone, Copy, Debug, PartialEq, Eq, Structural)]
pub enum Identifier {
    /// Generic identifier
    Generic(GenericIdentifier),
    /// PThread-specific identifier
    PThread(PThreadIdentifier),
    /// GPU driver identifier
    Cuda(CudaIdentifier),
    /// GPU runtime identifier
    CudaRuntime(CudaRuntimeIdentifier),
}

impl TypeValueEncodable for Identifier {
    type Type = u32;

    type Value = ResourceValue;

    /// The encoding of the domain identifier that this one wraps.
    open spec fn encoding(&self) -> (u32, ResourceValue) {
        match *self {
            Identifier::Generic(g) => g.encoding(),
            Identifier::PThread(p) => p.encoding(),
            Identifier::Cuda(c) => c.encoding(),
            Identifier::CudaRuntime(c) => c.encoding(),
        }
    }

    open spec fn unset_encoding() -> (u32, ResourceValue) {
        unset_pair()
    }

    fn encode(&self) -> (pair: (u32, ResourceValue))
        ensures
            pair == self.encoding(),
            names_resource(pair),
    {
        match self {
            Identifier::Generic(g) => g.encode(),
            Identifier::PThread(p) => p.encode(),
            Identifier::Cuda(c) => c.encode(),
            Identifier::CudaRuntime(c) => c.encode(),
        }
    }

    fn default_encoding() -> (pair: (u32, ResourceValue))
        ensures
            pair == unset_pair(),
            pair.0 == UNKNOWN,
            pair.1 == ResourceValue::Integer(0),
            !names_resource(pair),
    {
        unset()
    }
}

/// Wrapping a generic identifier changes nothing of what it encodes to.
pub proof fn lemma_wrapped_generic(value: GenericIdentifier)
    ensures
        Identifier::from_spec(value) == Identifier::Generic(value),
        Identifier::from_spec(value).encoding() == value.encoding(),
        value matches GenericIdentifier::Pointer(p) ==> Identifier::from_spec(value).encoding() == (
            GENERIC_POINTER,
            ResourceValue::Pointer(p),
        ),
        value matches GenericIdentifier::Handle(h) ==> Identifier::from_spec(value).encoding() == (
            GENERIC_HANDLE,
            ResourceValue::Integer(h),
        ),
{
}

/// Wrapping a pthread identifier changes nothing of what it encodes to.
pub proof fn lemma_wrapped_pthread(value: PThreadIdentifier)
    ensures
        Identifier::from_spec(value) == Identifier::PThread(value),
        Identifier::from_spec(value).encoding() == value.encoding(),
        Identifier::from_spec(value).encoding() == (
            value.code(),
            ResourceValue::Pointer(value.address()),
        ),
{
}

/// Wrapping a GPU driver identifier changes nothing of what it encodes to.
pub proof fn lemma_wrapped_cuda(value: CudaIdentifier)
    ensures
        Identifier::from_spec(value) == Identifier::Cuda(value),
        Identifier::from_spec(value).encoding() == value.encoding(),
        Identifier::from_spec(value).encoding() == (
            value.code(),
            ResourceValue::Pointer(value.handle()),
        ),
{
}

/// Wrapping a GPU runtime identifier changes nothing of what it encodes to.
pub proof fn lemma_wrapped_cuda_runtime(value: CudaRuntimeIdentifier)
    ensures
        Identifier::from_spec(value) == Identifier::CudaRuntime(value),
        Identifier::from_spec(value).encoding() == value.encoding(),
        value matches CudaRuntimeIdentifier::Device(d) ==> Identifier::from_spec(value).encoding()
            == (CUDART_DEVICE, ResourceValue::Integer(ordinal_payload(d))),
        value matches CudaRuntimeIdentifier::Stream(s) ==> Identifier::from_spec(value).encoding()
            == (CUDART_STREAM, ResourceValue::Pointer(s)),
        value matches CudaRuntimeIdentifier::Event(e) ==> Identifier::from_spec(value).encoding()
            == (CUDART_EVENT, ResourceValue::Pointer(e)),
{
}

/// Every identifier encodes to a resource code of the registry beside the
/// payload field that this code selects, and so never to the default pair.
pub proof fn lemma_encoding_names_resource(id: Identifier)
    ensures
        names_resource(id.encoding()),
        is_resource_code(id.encoding().0),
        id.encoding().0 != UNKNOWN,
        id.encoding() != Identifier::unset_encoding(),
{
}

/// The default pair does not depend on the type that is asked for it.
pub proof fn lemma_one_default()
    ensures
        Identifier::unset_encoding() == unset_pair(),
        GenericIdentifier::unset_encoding() == unset_pair(),
        PThreadIdentifier::unset_encoding() == unset_pair(),
        CudaIdentifier::unset_encoding() == unset_pair(),
        CudaRuntimeIdentifier::unset_encoding() == unset_pair(),
        unset_pair().0 == UNKNOWN,
        unset_pair().1 == ResourceValue::Integer(0),
{
}

/// Identifiers that encode to the same pair are the same identifier: the
/// pair tells the tracer which resource is meant.
pub proof fn lemma_encoding_is_injective(a: Identifier, b: Identifier)
    requires
        a.encoding() == b.encoding(),
    ensures
        a == b,
{
    if let Identifier::CudaRuntime(CudaRuntimeIdentifier::Device(x)) = a {
        if let Identifier::CudaRuntime(CudaRuntimeIdentifier::Device(y)) = b {
            lemma_ordinal_payload_is_injective(x, y);
        }
    }
}

} // verus!
