use vstd::prelude::*;

verus! {

/// The bits that name a permission; every other bit of a `u64` is ignored.
pub open spec fn known_bits() -> u64 {
    7u64
}

/// `granted` holds every permission bit that `wanted` holds.
pub open spec fn bits_contain(granted: u64, wanted: u64) -> bool {
    granted & wanted == wanted
}

/// The permissions that a key grants, as a set of flags packed into a `u64`.
///
/// Only the three known flags are ever set: `MANAGE_KEYS` (bit 0),
/// `READ_SEND` (bit 1) and `WRITE_SEND` (bit 2).
#[derive(Clone, Copy, Debug, PartialEq, Eq, Hash, Structural)]
pub struct Permissions {
    bits: u64,
}

impl View for Permissions {
    type V = u64;

    closed spec fn view(&self) -> u64 {
        self.bits
    }
}

impl Permissions {
    #[verifier::type_invariant]
    spec fn inv(self) -> bool {
        self.bits & !known_bits() == 0
    }

    /// The flag that allows managing keys.
    pub fn manage_keys() -> (p: Permissions)
        ensures
            p@ == 1,
    {
        assert(1u64 & !7u64 == 0) by (bit_vector);
        Permissions { bits: 1 }
    }

    /// The flag that allows receiving send requests.
    pub fn read_send() -> (p: Permissions)
        ensures
            p@ == 2,
    {
        assert(2u64 & !7u64 == 0) by (bit_vector);
        Permissions { bits: 2 }
    }

    /// The flag that allows issuing send requests.
    pub fn write_send() -> (p: Permissions)
        ensures
            p@ == 4,
    {
        assert(4u64 & !7u64 == 0) by (bit_vector);
        Permissions { bits: 4 }
    }

    /// Every known flag at once.
    pub fn admin() -> (p: Permissions)
        ensures
            p@ == 1u64 | 2u64 | 4u64,
            p@ == 7,
    {
        assert((1u64 | 2u64 | 4u64) == 7u64) by (bit_vector);
        assert(7u64 & !7u64 == 0) by (bit_vector);
        Permissions { bits: 1u64 | 2u64 | 4u64 }
    }

    /// Keeps the known flags of `bits` and drops every other bit.
    pub fn from_bits_truncate(bits: u64) -> (p: Permissions)
        ensures
            p@ == bits & known_bits(),
    {
        let b = bits & 7;
        assert(b & !7u64 == 0) by (bit_vector)
            requires
                b == bits & 7u64,
        ;
        Permissions { bits: b }
    }

    /// The flags as a `u64`.
    pub fn bits(&self) -> (b: u64)
        ensures
            b == self@,
            b & !known_bits() == 0,
    {
        proof {
            use_type_invariant(self);
        }
        self.bits
    }

    /// Whether every flag of `other` is set in `self`.
    pub fn contains(&self, other: Permissions) -> (r: bool)
        ensures
            r == bits_contain(self@, other@),
    {
        self.bits & other.bits == other.bits
    }
}

/// Truncating twice keeps what truncating once keeps.
pub proof fn lemma_truncate_idempotent(bits: u64)
    ensures
        (bits & known_bits()) & known_bits() == bits & known_bits(),
{
    assert((bits & 7u64) & 7u64 == bits & 7u64) by (bit_vector);
}

/// Every set of flags contains itself and the empty set.
pub proof fn lemma_contains_reflexive(a: u64)
    ensures
        bits_contain(a, a),
        bits_contain(a, 0),
{
    assert(a & a == a) by (bit_vector);
    assert(a & 0u64 == 0u64) by (bit_vector);
}

/// Containment of flags is transitive.
pub proof fn lemma_contains_transitive(a: u64, b: u64, c: u64)
    requires
        bits_contain(a, b),
        bits_contain(b, c),
    ensures
        bits_contain(a, c),
{
    assert((a & b == b && b & c == c) ==> a & c == c) by (bit_vector);
}

/// The admin set holds each flag, and holds every truncated set of flags.
pub proof fn lemma_admin_contains_all(bits: u64)
    ensures
        bits_contain(7, 1),
        bits_contain(7, 2),
        bits_contain(7, 4),
        bits_contain(7, bits & known_bits()),
{
    assert(7u64 & 1u64 == 1u64) by (bit_vector);
    assert(7u64 & 2u64 == 2u64) by (bit_vector);
    assert(7u64 & 4u64 == 4u64) by (bit_vector);
    assert(7u64 & (bits & 7u64) == bits & 7u64) by (bit_vector);
}

/// A value read as raw bits grants `READ_SEND` exactly when bit 1 of it is set.
pub proof fn lemma_read_send_of_raw(bits: u64)
    ensures
        bits_contain(bits & known_bits(), 2) <==> bits & 2 != 0,
{
    assert(((bits & 7u64) & 2u64 == 2u64) <==> (bits & 2u64 != 0u64)) by (bit_vector);
}

} // verus!
