use vstd::prelude::*;

verus! {

/// A failure reported by a connected server.
#[derive(Debug)]
pub struct GenericError {
    pub message: String,
}

/// A request to send players to a server.
#[derive(Debug)]
pub struct SendRequest {
    pub players: Vec<String>,
    pub server: String,
}

} // verus!
