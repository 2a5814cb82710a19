//! What every identifier can do: produce the pair that the tracer reads.

use vstd::prelude::*;

verus! {

/// A value that encodes itself as a type code and a payload.
///
/// `encode` is total and returns nothing but a function of the value:
/// `encoding` names that function, so two calls on equal values give equal
/// pairs. `default_encoding` belongs to the type, not to a value, and gives
/// the pair that stands where no value was set.
pub trait TypeValueEncodable {
    /// The type code.
    type Type;

    /// The payload.
    type Value;

    /// The pair that `encode` returns for this value.
    spec fn encoding(&self) -> (Self::Type, Self::Value);

    /// The pair that `default_encoding` returns.
    spec fn unset_encoding() -> (Self::Type, Self::Value);

    /// Encodes this value.
    fn encode(&self) -> (pair: (Self::Type, Self::Value))
        ensures
            pair == self.encoding(),
    ;

    /// The pair for a value that was never set.
    fn default_encoding() -> (pair: (Self::Type, Self::Value))
        ensures
            pair == Self::unset_encoding(),
    ;
}

} // verus!
