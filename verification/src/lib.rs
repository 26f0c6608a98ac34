//! Transfer session orchestration for code-paired file exchange: the event
//! model, the sender and receiver session state machines with their emitted
//! milestone traces, and the projection of collaborator errors into a single
//! opaque outcome. The asynchronous network collaborators (rendezvous and
//! transit) stay outside; a host drives each session by reporting their
//! results and performs the suspensions itself.

pub mod event;
pub mod outcome;
pub mod receiver;
pub mod sender;
pub mod wire;

use vstd::prelude::*;

verus! {

/// Name and size of the file being transferred: known to the sender up
/// front, learned by the receiver from the offer exchange.
pub struct TransferDescriptor {
    pub file_name: String,
    pub file_size: u64,
}

/// Immutable parameters for one transfer session: the rendezvous server
/// endpoint and the relay server endpoint.
pub struct WormholeConfig {
    pub rendezvous_url: String,
    pub relay_url: String,
}

impl WormholeConfig {
    /// Builds a config from the two endpoint URLs. The value is immutable and
    /// may be reused across any number of independent sessions.
    pub fn new(rendezvous_url: String, relay_url: String) -> (c: WormholeConfig)
        ensures
            c.rendezvous_url@ == rendezvous_url@,
            c.relay_url@ == relay_url@,
    {
        WormholeConfig { rendezvous_url, relay_url }
    }
}

} // verus!
