use crate::websocket::messages::{MessageView, WebSocketMessage};
use dashmap::DashMap;
use std::collections::hash_map::RandomState;
use tokio::sync::oneshot::{Receiver, Sender};
use vstd::prelude::*;

verus! {

/// `dashmap::DashMap`, a concurrent hash map, as an opaque type.
#[verifier::external_type_specification]
#[verifier::external_body]
#[verifier::reject_recursive_types(K)]
#[verifier::reject_recursive_types(V)]
#[verifier::reject_recursive_types(S)]
pub struct ExDashMap<K, V, S>(DashMap<K, V, S>);

/// `tokio::sync::oneshot::Sender`, the sending half of a one-message channel.
#[verifier::external_type_specification]
#[verifier::external_body]
#[verifier::reject_recursive_types(T)]
pub struct ExOneshotSender<T>(Sender<T>);

/// `tokio::sync::oneshot::Receiver`, the receiving half of a one-message channel.
#[verifier::external_type_specification]
#[verifier::external_body]
#[verifier::reject_recursive_types(T)]
pub struct ExOneshotReceiver<T>(Receiver<T>);

/// `tokio::sync::oneshot::error::RecvError`: the sender went away without sending.
#[verifier::external_type_specification]
#[verifier::external_body]
pub struct ExOneshotRecvError(tokio::sync::oneshot::error::RecvError);

/// The message ids that have a waiter registered in the map.
pub uninterp spec fn waiting_ids(m: DashMap<String, Sender<WebSocketMessage>, RandomState>) -> Set<Seq<char>>;

/// `DashMap::new`: an empty map.
#[verifier::external_body]
fn waiters_new() -> (m: DashMap<String, Sender<WebSocketMessage>, RandomState>)
    ensures
        waiting_ids(m) == Set::<Seq<char>>::empty(),
{
    DashMap::new()
}

/// `DashMap::insert`: afterwards the key is present; the other keys are unchanged.
#[verifier::external_body]
fn waiters_insert(
    m: &mut DashMap<String, Sender<WebSocketMessage>, RandomState>,
    key: String,
    value: Sender<WebSocketMessage>,
)
    ensures
        waiting_ids(*final(m)) == waiting_ids(*old(m)).insert(key@),
{
    m.insert(key, value);
}

/// `DashMap::remove`: takes the entry of the key out of the map, if there is one.
#[verifier::external_body]
fn waiters_remove(
    m: &mut DashMap<String, Sender<WebSocketMessage>, RandomState>,
    key: &String,
) -> (r: Option<Sender<WebSocketMessage>>)
    ensures
        r is Some <==> waiting_ids(*old(m)).contains(key@),
        waiting_ids(*final(m)) == waiting_ids(*old(m)).remove(key@),
{
    m.remove(key).map(|(_, v)| v)
}

/// `tokio::sync::oneshot::channel`: a connected sender and receiver.
#[verifier::external_body]
fn oneshot_channel() -> (Sender<WebSocketMessage>, Receiver<WebSocketMessage>) {
    tokio::sync::oneshot::channel()
}

/// `oneshot::Sender::send`: when the receiver is already gone the value comes back.
#[verifier::external_body]
fn oneshot_send(sender: Sender<WebSocketMessage>, message: WebSocketMessage) -> (r: Result<
    (),
    WebSocketMessage,
>)
    ensures
        r matches Err(back) ==> back == message,
{
    sender.send(message)
}

/// What became of a message handed to [`Standby::process_message`].
#[derive(Clone, Copy, Debug, PartialEq, Eq, Structural)]
pub enum Delivery {
    /// Nobody waited for the message's id; the message was dropped.
    NoWaiter,
    /// The waiter for the message's id was handed the message.
    Delivered,
    /// A waiter was registered for the id, but its receiving end was already gone.
    ReceiverGone,
}

/// Whether a delivery outcome fits the waiters before it: a message whose id was
/// awaited reached its waiter or found the receiver gone; any other was not claimed.
pub open spec fn delivery_fits(waiting: Set<Seq<char>>, message_id: Seq<char>, d: Delivery) -> bool {
    if waiting.contains(message_id) {
        d == Delivery::Delivered || d == Delivery::ReceiverGone
    } else {
        d == Delivery::NoWaiter
    }
}

/// Requests that wait for the response with a given message id.
pub struct Standby {
    bystanders: DashMap<String, Sender<WebSocketMessage>, RandomState>,
    handed: Ghost<Seq<MessageView>>,
}

impl View for Standby {
    type V = Set<Seq<char>>;

    /// The ids that a response is awaited for.
    closed spec fn view(&self) -> Set<Seq<char>> {
        waiting_ids(self.bystanders)
    }
}

impl Standby {
    /// Every message handed to the standby so far, in order, as it was handed over.
    pub closed spec fn handed(&self) -> Seq<MessageView> {
        self.handed@
    }

    /// A standby that waits for nothing and was handed nothing.
    pub fn new() -> (s: Standby)
        ensures
            s@ == Set::<Seq<char>>::empty(),
            s.handed() == Seq::<MessageView>::empty(),
    {
        Standby { bystanders: waiters_new(), handed: Ghost(Seq::empty()) }
    }

    /// Registers a waiter for the response with id `message_id`; the response arrives on
    /// the returned receiver. A waiter registered earlier for the same id is replaced.
    pub fn wait_for_response(&mut self, message_id: String) -> (rx: Receiver<WebSocketMessage>)
        ensures
            final(self)@ == old(self)@.insert(message_id@),
            final(self).handed() == old(self).handed(),
    {
        let (tx, rx) = oneshot_channel();
        waiters_insert(&mut self.bystanders, message_id, tx);
        rx
    }

    /// Hands `message` to the waiter for its id and forgets that waiter.
    /// A message that nobody waits for is dropped.
    pub fn process_message(&mut self, message: WebSocketMessage) -> (d: Delivery)
        ensures
            final(self)@ == old(self)@.remove(message.message_id@),
            delivery_fits(old(self)@, message.message_id@, d),
            final(self).handed() == old(self).handed().push(message@),
    {
        self.handed = Ghost(self.handed@.push(message@));
        let message_id = message.message_id.clone();
        match waiters_remove(&mut self.bystanders, &message_id) {
            Some(sender) => match oneshot_send(sender, message) {
                Ok(()) => Delivery::Delivered,
                Err(_) => Delivery::ReceiverGone,
            },
            None => Delivery::NoWaiter,
        }
    }
}

impl Default for Standby {
    fn default() -> (s: Standby)
        ensures
            s@ == Set::<Seq<char>>::empty(),
            s.handed() == Seq::<MessageView>::empty(),
    {
        Standby::new()
    }
}

/// Waiting for an id and then receiving a message with that id hands the message out
/// (or finds its receiver gone), and leaves no waiter for the id behind.
pub proof fn lemma_wait_then_deliver(waiting: Set<Seq<char>>, message_id: Seq<char>, d: Delivery)
    requires
        delivery_fits(waiting.insert(message_id), message_id, d),
    ensures
        d == Delivery::Delivered || d == Delivery::ReceiverGone,
        !waiting.insert(message_id).remove(message_id).contains(message_id),
        waiting.insert(message_id).remove(message_id) == waiting.remove(message_id),
{
    assert(waiting.insert(message_id).remove(message_id) =~= waiting.remove(message_id));
}

/// A response is handed out at most once: a second message with the same id finds no
/// waiter.
pub proof fn lemma_deliver_at_most_once(
    waiting: Set<Seq<char>>,
    message_id: Seq<char>,
    d: Delivery,
)
    requires
        delivery_fits(waiting.remove(message_id), message_id, d),
    ensures
        d == Delivery::NoWaiter,
{
}

/// A message that nobody waits for is dropped and leaves every waiter in place.
pub proof fn lemma_unclaimed_message(waiting: Set<Seq<char>>, message_id: Seq<char>, d: Delivery)
    requires
        !waiting.contains(message_id),
        delivery_fits(waiting, message_id, d),
    ensures
        d == Delivery::NoWaiter,
        waiting.remove(message_id) == waiting,
{
    assert(waiting.remove(message_id) =~= waiting);
}

/// Waiting for one id leaves the waiters for every other id as they were, and
/// delivering a message for one id does too.
pub proof fn lemma_other_ids_untouched(waiting: Set<Seq<char>>, id: Seq<char>, other: Seq<char>)
    requires
        id != other,
    ensures
        waiting.insert(id).contains(other) == waiting.contains(other),
        waiting.remove(id).contains(other) == waiting.contains(other),
{
}

} // verus!
