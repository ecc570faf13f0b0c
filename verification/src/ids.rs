use vstd::prelude::*;

verus! {

/// A character of the URL-safe alphabet that message ids are drawn from.
pub open spec fn is_id_char(c: char) -> bool {
    ||| c == '_'
    ||| c == '-'
    ||| ('0' <= c && c <= '9')
    ||| ('a' <= c && c <= 'z')
    ||| ('A' <= c && c <= 'Z')
}

/// The length of a message id.
pub open spec fn message_id_len() -> nat {
    21
}

/// The shape of every message id: 21 characters of the URL-safe alphabet.
pub open spec fn is_message_id(s: Seq<char>) -> bool {
    &&& s.len() == message_id_len()
    &&& forall|i: int| 0 <= i < s.len() ==> is_id_char(#[trigger] s[i])
}

/// `nanoid::format` with the crate's default random source and its URL-safe alphabet:
/// a random id of `size` characters, each drawn from that alphabet. Which characters
/// come out is left open: they are random.
#[verifier::external_body]
fn nanoid_safe(size: usize) -> (id: String)
    requires
        0 < size <= 4096,
    ensures
        id@.len() == size,
        forall|i: int| 0 <= i < id@.len() ==> is_id_char(#[trigger] id@[i]),
{
    nanoid::format(nanoid::rngs::default, &nanoid::alphabet::SAFE, size)
}

/// A fresh random message id: 21 URL-safe characters.
pub fn new_message_id() -> (id: String)
    ensures
        is_message_id(id@),
{
    nanoid_safe(21)
}

} // verus!
