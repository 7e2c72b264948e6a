//! The closed set of failures an entry point can surface to the host.
use vstd::prelude::*;

verus! {

/// Every failure of this module is one of these kinds; a failed call
/// delivers no outbound messages, and the host rolls the call back wholesale.
#[derive(Clone, Copy, Debug, PartialEq, Eq, Structural)]
pub enum ContractError {
    /// A migration was attempted against a version record whose name does
    /// not match this module's own name (or no record was persisted at all).
    VersionMismatch,
    /// A builder was handed a malformed chain address.
    InvalidAddress,
    /// The codec could not represent a value, or an inbound payload did not
    /// parse; the call aborts rather than emit malformed bytes.
    SerializationFailure,
    /// A reply arrived for a tag this module never registers: an internal
    /// consistency violation between the builders and the correlator.
    UnknownReplyTag,
    /// The version store refused a write.
    StorageFailure,
}

impl ContractError {
    /// A human-readable description, surfaced to the host alongside the kind.
    pub fn describe(&self) -> (r: &'static str)
        ensures
            self is VersionMismatch ==> r@ == "can only migrate from the same contract type"@,
            self is InvalidAddress ==> r@ == "malformed chain address"@,
            self is SerializationFailure ==> r@ == "payload could not be encoded or decoded"@,
            self is UnknownReplyTag ==> r@ == "reply received for an unregistered tag"@,
            self is StorageFailure ==> r@ == "the version store refused the write"@,
    {
        match self {
            ContractError::VersionMismatch => "can only migrate from the same contract type",
            ContractError::InvalidAddress => "malformed chain address",
            ContractError::SerializationFailure => "payload could not be encoded or decoded",
            ContractError::UnknownReplyTag => "reply received for an unregistered tag",
            ContractError::StorageFailure => "the version store refused the write",
        }
    }
}

} // verus!
