//! Resource identifiers for an event tracer.
//!
//! An identifier names one resource of a program (a lock, a handle, a GPU
//! stream) and encodes itself as the pair that the tracer's resource record
//! takes: a type code from the tracer's registry and a payload that holds a
//! number or the resource's address.
//!
//! An address is a number here. The library never reads through it, and it
//! cannot tell whether the object is still there: whoever encodes an
//! identifier keeps the object alive, and in its place, until the tracer has
//! taken the pair.

pub mod encodable;
pub mod identifier;
pub mod resource_type;
pub mod value;

pub use encodable::TypeValueEncodable;
pub use identifier::{
    CudaIdentifier, CudaRuntimeIdentifier, GenericIdentifier, Identifier, PThreadIdentifier,
};
pub use value::ResourceValue;
