//! What can go wrong between this server, the identity endpoint and the relay.

use vstd::prelude::*;

verus! {

/// No bearer token could be had from the identity endpoint.
#[derive(Clone, Copy, Debug, PartialEq, Eq)]
pub enum AuthError {
    /// The request did not get through, or no response came back.
    Transport,
    /// The response is no JSON object with a string `access_token` and a
    /// 32-bit integer `expires_in`.
    Malformed,
    /// The lifetime in the response puts the expiry outside the clock's range.
    Lifetime,
}

/// A call to the relay failed.
#[derive(Clone, Copy, Debug, PartialEq, Eq)]
pub enum RelayError {
    /// The request did not get through, or no response came back.
    Transport,
    /// The relay answered with this status, which is not a 2xx.
    Status(u16),
}

/// Why an operation of the dispatcher failed.
#[derive(Clone, Copy, Debug, PartialEq, Eq)]
pub enum PushError {
    Auth(AuthError),
    Relay(RelayError),
}

} // verus!
