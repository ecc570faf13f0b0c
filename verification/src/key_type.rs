use crate::text::str_equal;
use vstd::prelude::*;

verus! {

/// The kind of service that an API key belongs to.
#[derive(Clone, Copy, Debug, PartialEq, Eq, Hash, Structural)]
pub enum KeyType {
    Proxy,
    Logging,
    Server,
}

/// A stored key type that names none of the known kinds.
#[derive(Clone, Copy, Debug, PartialEq, Eq, Structural)]
pub enum KeyTypeError {
    InvalidKeyType,
}

/// The key type that a stored name stands for: `proxy`, `logging` or `server`.
pub open spec fn key_type_named(s: Seq<char>) -> Option<KeyType> {
    if s == "proxy"@ {
        Some(KeyType::Proxy)
    } else if s == "logging"@ {
        Some(KeyType::Logging)
    } else if s == "server"@ {
        Some(KeyType::Server)
    } else {
        None
    }
}

impl KeyTypeError {
    /// The text that the error is reported with.
    pub fn description(&self) -> (s: &'static str)
        ensures
            s@ == "Invalid key type"@,
    {
        "Invalid key type"
    }
}

impl KeyType {
    /// Reads a key type from the name it is stored under.
    pub fn from_name(s: &str) -> (r: Result<KeyType, KeyTypeError>)
        ensures
            r == (match key_type_named(s@) {
                Some(k) => Ok(k),
                None => Err(KeyTypeError::InvalidKeyType),
            }),
    {
        if str_equal(s, "proxy") {
            Ok(KeyType::Proxy)
        } else if str_equal(s, "logging") {
            Ok(KeyType::Logging)
        } else if str_equal(s, "server") {
            Ok(KeyType::Server)
        } else {
            Err(KeyTypeError::InvalidKeyType)
        }
    }
}

} // verus!
