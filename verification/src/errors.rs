//! Error taxonomy of the wallet session and of the contract descriptor.

use vstd::prelude::*;

verus! {

/// A provider call failed: the user declined, the provider was unreachable,
/// or the request was malformed.  Carried inside a channel message so that a
/// failure is observable to the poller instead of leaving the channel
/// silently empty forever.
#[derive(Clone, Debug, PartialEq, Eq)]
pub struct ProviderError {
    pub message: String,
}

/// Why a poll returned no value.
#[derive(Clone, Debug, PartialEq, Eq)]
pub enum RecvError {
    /// No result is queued yet; retry on a later tick.
    Empty,
    /// The channel can never produce a result again.
    Closed,
    /// The background task reported that the provider call itself failed.
    Provider(ProviderError),
}

/// A malformed input handed to the session or to the descriptor loader:
/// reported synchronously at the call site, never deferred into a channel.
#[derive(Clone, Copy, Debug, PartialEq, Eq)]
pub enum ParseError {
    /// The account string is not a valid 20-byte hex address.
    BadAddress,
    /// The interface description is not a valid contract interface.
    BadInterface,
}

/// Why encoding a call or decoding its output failed.
#[derive(Clone, Copy, Debug, PartialEq, Eq)]
pub enum AbiError {
    /// The interface description has no method of the given name.
    UnknownMethod,
    /// The arguments do not fit the method's parameter types.
    EncodingError,
    /// The bytes do not parse as the method's output types.
    DecodingError,
}

} // verus!
