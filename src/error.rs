use vstd::prelude::*;

verus! {

/// What can go wrong between the protocol's data model and the chain.
#[derive(Debug, Clone, PartialEq, Eq)]
pub enum ChainError {
    /// The text is no address of this chain: bad encoding, checksum, prefix or length.
    MalformedAddress,
    /// The chain's address format cannot hold the identifier.
    UnrepresentableIdentifier,
    /// A value could not be written in the form the contract expects.
    SerializationError,
    /// The provider failed; its own message is passed on.
    QueryFailed(String),
    /// The provider's answer is not the structured response that was asked for.
    ResponseDecodeError,
    /// A transaction receipt lacks a field, or a field does not parse.
    ReceiptDecodeError,
    /// The configuration does not describe a usable adapter.
    ProviderConstructionError,
}

} // verus!
