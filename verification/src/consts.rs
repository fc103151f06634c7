use vstd::prelude::*;

verus! {

/// Liveness reply expected from a healthy peer.
pub const PONG: &'static str = "PONG";

/// Loopback address; never a valid peer and never leaked as an origin.
pub const LOCALHOST: &'static str = "127.0.0.1";

/// Origin placeholder used when the local address cannot be determined.
pub const UNKNOWN_HOST: &'static str = "unknown";

} // verus!
