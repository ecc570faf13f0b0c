pub mod messages;
pub mod websocket_handler;

use crate::permissions::{bits_contain, Permissions};
use crate::text::str_equal;
use vstd::prelude::*;

verus! {

/// The address of a connected peer, held as plain numbers: an IPv4 address and port, or
/// an IPv6 address and port with its flow label and scope.
#[derive(Clone, Copy, Debug, PartialEq, Eq, Structural)]
pub enum PeerAddr {
    V4 { ip4: u32, port: u16 },
    V6 { ip6: u128, port: u16, flowinfo: u32, scope_id: u32 },
}

impl PeerAddr {
    /// Whether two addresses are the same address.
    pub fn same(&self, other: &PeerAddr) -> (r: bool)
        ensures
            r == (*self == *other),
    {
        match (self, other) {
            (PeerAddr::V4 { ip4: a, port: p }, PeerAddr::V4 { ip4: b, port: q }) => *a == *b && *p
                == *q,
            (
                PeerAddr::V6 { ip6: a, port: p, flowinfo: f, scope_id: s },
                PeerAddr::V6 { ip6: b, port: q, flowinfo: g, scope_id: t },
            ) => *a == *b && *p == *q && *f == *g && *s == *t,
            _ => false,
        }
    }
}

/// A server connected over the websocket. `sender` is how messages reach it.
pub struct WebsocketConnection<H> {
    pub addr: PeerAddr,
    pub identifier: String,
    pub permissions: Permissions,
    pub sender: H,
}

/// A connection that a send request may be forwarded to: it holds `READ_SEND` and
/// identifies itself as the proxy.
pub open spec fn can_handle_send_request<H>(c: WebsocketConnection<H>) -> bool {
    &&& bits_contain(c.permissions@, 2)
    &&& c.identifier@ == "proxy"@
}

/// The test that keeps a connection not at `addr`.
pub open spec fn not_at<H>(addr: PeerAddr) -> spec_fn(WebsocketConnection<H>) -> bool {
    |c: WebsocketConnection<H>| c.addr != addr
}

/// The connections that are not at `addr`, in their order.
pub open spec fn without_addr<H>(s: Seq<WebsocketConnection<H>>, addr: PeerAddr) -> Seq<
    WebsocketConnection<H>,
> {
    s.filter(not_at(addr))
}

/// The first connection that may handle a send request, if any.
pub open spec fn is_first_send_target<H>(s: Seq<WebsocketConnection<H>>, i: int) -> bool {
    &&& 0 <= i < s.len()
    &&& can_handle_send_request(s[i])
    &&& forall|j: int| 0 <= j < i ==> !can_handle_send_request(#[trigger] s[j])
}

/// Whether `c` may handle a send request.
pub fn handles_send_request<H>(c: &WebsocketConnection<H>) -> (r: bool)
    ensures
        r == can_handle_send_request(*c),
        r == (c.permissions@ & 2u64 == 2u64 && c.identifier@ == "proxy"@),
{
    c.permissions.contains(Permissions::read_send()) && str_equal(c.identifier.as_str(), "proxy")
}

/// Adds a connection at the end of the list.
pub fn register_connection<H>(
    connections: &mut Vec<WebsocketConnection<H>>,
    connection: WebsocketConnection<H>,
)
    ensures
        final(connections)@ == old(connections)@.push(connection),
{
    connections.push(connection);
}

/// Drops every connection at `addr`, keeping the others in their order.
pub fn remove_connection<H>(connections: &mut Vec<WebsocketConnection<H>>, addr: PeerAddr)
    ensures
        final(connections)@ == without_addr(old(connections)@, addr),
{
    let ghost orig = connections@;
    let ghost keep = not_at::<H>(addr);
    let mut i: usize = 0;
    let mut k: usize = 0;
    proof {
        assert(orig.take(0) =~= Seq::<WebsocketConnection<H>>::empty());
        reveal(Seq::filter);
        assert(connections@ =~= orig.take(0).filter(keep) + orig.skip(0));
    }
    assert(orig.len() == connections.len());
    while i < connections.len()
        invariant
            orig.len() <= usize::MAX,
            keep == not_at::<H>(addr),
            k <= orig.len(),
            i == orig.take(k as int).filter(keep).len(),
            connections@ == orig.take(k as int).filter(keep) + orig.skip(k as int),
        decreases connections.len() - i,
    {
        let ghost done = orig.take(k as int).filter(keep);
        proof {
            assert(connections@.len() == i + orig.skip(k as int).len());
            assert(k < orig.len());
            assert(orig.take(k as int + 1) =~= orig.take(k as int).push(orig[k as int]));
            orig.take(k as int).lemma_filter_push(orig[k as int], keep);
            assert(connections@[i as int] == orig[k as int]);
        }
        if connections[i].addr.same(&addr) {
            connections.remove(i);
            proof {
                assert(!keep(orig[k as int]));
                assert(orig.take(k as int + 1).filter(keep) == done);
                assert(connections@ =~= done + orig.skip(k as int + 1));
            }
        } else {
            i = i + 1;
            proof {
                assert(keep(orig[k as int]));
                assert(orig.take(k as int + 1).filter(keep) == done.push(orig[k as int]));
                assert(connections@ =~= done.push(orig[k as int]) + orig.skip(k as int + 1));
            }
        }
        k = k + 1;
    }
    proof {
        assert(k == orig.len()) by {
            if k < orig.len() {
                assert(connections@.len() == i + orig.skip(k as int).len());
            }
        }
        assert(orig.take(k as int) =~= orig);
        assert(connections@ =~= orig.filter(keep));
    }
}

/// The index of the first connection that may handle a send request, if any.
pub fn send_target<H>(connections: &Vec<WebsocketConnection<H>>) -> (r: Option<usize>)
    ensures
        r matches Some(i) ==> is_first_send_target(connections@, i as int),
        r is None ==> forall|j: int|
            0 <= j < connections@.len() ==> !can_handle_send_request(#[trigger] connections@[j]),
{
    let mut i: usize = 0;
    while i < connections.len()
        invariant
            i <= connections@.len(),
            forall|j: int| 0 <= j < i ==> !can_handle_send_request(#[trigger] connections@[j]),
        decreases connections.len() - i,
    {
        if handles_send_request(&connections[i]) {
            return Some(i);
        }
        i = i + 1;
    }
    None
}

/// A connection may take a send request exactly when its permissions hold the
/// `READ_SEND` bit and it identifies as the proxy, whatever other bits it holds.
pub proof fn lemma_send_target_condition<H>(c: WebsocketConnection<H>)
    ensures
        can_handle_send_request(c) <==> (c.permissions@ & 2u64 == 2u64 && c.identifier@
            == "proxy"@),
{
}

/// Extra permission bits never take away the right to handle send requests: a proxy
/// whose bits include those of another eligible proxy is eligible too.
pub proof fn lemma_more_permissions_still_eligible<H>(
    c: WebsocketConnection<H>,
    d: WebsocketConnection<H>,
)
    requires
        can_handle_send_request(c),
        d.identifier@ == "proxy"@,
        d.permissions@ & c.permissions@ == c.permissions@,
    ensures
        can_handle_send_request(d),
{
    let a = c.permissions@;
    let b = d.permissions@;
    assert((a & 2u64 == 2u64 && b & a == a) ==> b & 2u64 == 2u64) by (bit_vector);
}

/// A connection that registers and later leaves at its address leaves the list as it
/// would have been without it.
pub proof fn lemma_register_then_remove<H>(s: Seq<WebsocketConnection<H>>, c: WebsocketConnection<H>)
    ensures
        without_addr(s.push(c), c.addr) == without_addr(s, c.addr),
{
    s.lemma_filter_push(c, not_at::<H>(c.addr));
}

/// After the connections at an address are removed, none at that address remains.
pub proof fn lemma_removed_addr_absent<H>(s: Seq<WebsocketConnection<H>>, addr: PeerAddr, i: int)
    requires
        0 <= i < without_addr(s, addr).len(),
    ensures
        without_addr(s, addr)[i].addr != addr,
{
    s.lemma_filter_pred(not_at::<H>(addr), i);
}

/// Removing the connections at one address keeps every connection at another address.
pub proof fn lemma_remove_keeps_others<H>(s: Seq<WebsocketConnection<H>>, addr: PeerAddr, i: int)
    requires
        0 <= i < s.len(),
        s[i].addr != addr,
    ensures
        without_addr(s, addr).contains(s[i]),
{
    s.lemma_filter_contains(not_at::<H>(addr), i);
}

} // verus!
