//! Typed commands of the data-plane transport, as the core consumes them.
//! Decoding them from their wire encoding stands outside the core; here
//! they are plain values.

use vstd::prelude::*;

verus! {

/// Message used to initiate the transport exchange that uploads a new
/// datastream: the target resource and the caller's creation receipt.
pub struct DoPutCmd {
    pub resource_locator: String,
    pub key: String,
}

/// Request info on a resource (topic or sequence).
pub struct GetFlightInfoCmd {
    pub resource_locator: String,
}

} // verus!
