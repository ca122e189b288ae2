//! Verified core of a small HTTP service that accepts coverage reports,
//! checks a shared secret and records a timestamped percentage.
//!
//! The HTTP server, the secret store and the remote database live outside
//! this library; it decides what each request leads to.
use vstd::prelude::*;

pub mod clock;
pub mod config;
pub mod ingest;

verus! {

/// The fixed greeting served on the root path.
pub open spec fn greeting() -> Seq<char> {
    "Hello, world!"@
}

/// Body of the liveness response: always the same text.
pub fn hello_world() -> (r: &'static str)
    ensures
        r@ == greeting(),
{
    proof {
        reveal_strlit("Hello, world!");
    }
    "Hello, world!"
}

} // verus!
