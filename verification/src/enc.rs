//! The abstract `AddressEncoder` used by wallet layers built on top of key
//! derivation to convert between user-facing addresses and the in-memory
//! representation of the associated spending constraint.

use vstd::prelude::*;

verus! {

/// Marks a type that represents the in-protocol identifier of a payment
/// recipient.
pub trait RecipientIdentifier {

}

/// An AddressEncoder encodes and decodes addresses, converting between
/// strings, user-facing addresses and in-protocol recipient identifiers. It
/// exists to keep the user-facing address type conceptually separate from the
/// protocol-facing recipient identifier.
pub trait AddressEncoder {
    /// The user-facing address, with any disambiguating information.
    type Address;

    /// The error returned in case of encoding errors.
    type Error;

    /// The in-protocol recipient, usually different from the address type.
    type RecipientIdentifier: RecipientIdentifier;

    /// Encode a recipient identifier as an address.
    fn encode_address(s: Self::RecipientIdentifier) -> Result<Self::Address, Self::Error>;

    /// Decode a recipient identifier from an address.
    fn decode_address(addr: Self::Address) -> Result<Self::RecipientIdentifier, Self::Error>;

    /// Wrap a string in the appropriate address type.
    fn wrap_string(s: String) -> Result<Self::Address, Self::Error>;
}

} // verus!
