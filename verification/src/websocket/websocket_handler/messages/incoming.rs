use vstd::prelude::*;

verus! {

/// A peer's choice of the updates it wants to receive.
#[derive(Debug)]
pub struct SubscriptionUpdate {
    pub subscriptions: Vec<SubscriptionType>,
}

/// A kind of update that a peer can subscribe to.
#[derive(Clone, Copy, Debug, PartialEq, Eq, Structural)]
pub enum SubscriptionType {
    PlayerSend,
}

} // verus!
