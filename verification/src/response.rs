use vstd::prelude::*;

verus! {

/// A failure as the service reports it: a message, and optionally one fit to show a user.
#[derive(Debug)]
pub struct CherryCaveError {
    pub message: String,
    pub display_message: Option<String>,
}

/// A success as the service reports it.
#[derive(Clone, Copy, Debug, PartialEq, Eq, Structural)]
pub enum CherryCaveResponse {
    GenericOk,
}

} // verus!
