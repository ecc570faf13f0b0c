pub mod send_request;
pub mod server_registrations;
pub mod settings;

use crate::key_type::{key_type_named, KeyType};
use crate::ids::{is_message_id, new_message_id};
use crate::text::joined;
use crate::websocket::messages::{MessageType, WebSocketMessage, WebSocketMessagePayload};
use vstd::prelude::*;

verus! {

/// Who sent an authorized command: the kind of key and the server's identifier.
#[derive(Debug)]
pub struct AuthorizationExtension {
    pub key_type: KeyType,
    pub identifier: String,
}

impl Clone for AuthorizationExtension {
    fn clone(&self) -> (r: Self)
        ensures
            r == *self,
    {
        AuthorizationExtension { key_type: self.key_type, identifier: self.identifier.clone() }
    }
}

/// Why a request is turned away.
#[derive(Clone, Copy, Debug, PartialEq, Eq, Structural)]
pub enum RejectStatus {
    /// 401: a header is missing or the key is not known.
    Unauthorized,
    /// 500: the key's permissions could not be read.
    InternalServerError,
}

impl RejectStatus {
    /// The HTTP status code of the rejection.
    pub fn code(&self) -> (c: u16)
        ensures
            *self == RejectStatus::Unauthorized ==> c == 401,
            *self == RejectStatus::InternalServerError ==> c == 500,
    {
        match self {
            RejectStatus::Unauthorized => 401,
            RejectStatus::InternalServerError => 500,
        }
    }
}

/// The `Authorization` and `X-Server-Identifier` headers, each read as text where it is
/// present and readable; without both the request is unauthorized.
pub fn required_headers(auth_header: Option<&str>, server_identifier: Option<&str>) -> (r: Result<
    (String, String),
    RejectStatus,
>)
    ensures
        match (auth_header, server_identifier) {
            (Some(a), Some(i)) => r matches Ok((x, y)) && x@ == a@ && y@ == i@,
            _ => r == Err::<(String, String), RejectStatus>(RejectStatus::Unauthorized),
        },
{
    match (auth_header, server_identifier) {
        (Some(a), Some(i)) => Ok((String::from_str(a), String::from_str(i))),
        _ => Err(RejectStatus::Unauthorized),
    }
}

/// The key under which the store keeps what an API key grants: `auth.` and the key.
pub fn auth_store_key(auth_header: &str) -> (k: String)
    ensures
        k@ == "auth."@ + auth_header@,
{
    joined("auth.", auth_header)
}

/// Authorizes a command from the key type stored for its API key: a failed lookup, or a
/// stored value that names no key type, leaves the command unauthorized.
pub fn authorize_command<E>(server_identifier: String, stored_key_type: Result<String, E>) -> (r:
    Result<AuthorizationExtension, RejectStatus>)
    ensures
        match stored_key_type {
            Ok(s) => match key_type_named(s@) {
                Some(k) => r matches Ok(ext) && ext.key_type == k && ext.identifier
                    == server_identifier,
                None => r == Err::<AuthorizationExtension, RejectStatus>(
                    RejectStatus::Unauthorized,
                ),
            },
            Err(_) => r == Err::<AuthorizationExtension, RejectStatus>(RejectStatus::Unauthorized),
        },
{
    match stored_key_type {
        Ok(s) => match KeyType::from_name(s.as_str()) {
            Ok(key_type) => Ok(AuthorizationExtension { key_type, identifier: server_identifier }),
            Err(_) => Err(RejectStatus::Unauthorized),
        },
        Err(_) => Err(RejectStatus::Unauthorized),
    }
}

/// One message per connection, each a fresh `Init` message with its own random id,
/// all carrying `payload`.
pub fn broadcast_messages(connection_count: usize, payload: &WebSocketMessagePayload) -> (r: Vec<
    WebSocketMessage,
>)
    ensures
        r@.len() == connection_count,
        forall|i: int|
            0 <= i < r@.len() ==> {
                &&& is_message_id((#[trigger] r@[i]).message_id@)
                &&& r@[i].message_type == MessageType::Init
                &&& r@[i].payload@ == payload@
            },
{
    let mut r: Vec<WebSocketMessage> = Vec::new();
    let mut i: usize = 0;
    while i < connection_count
        invariant
            i <= connection_count,
            r@.len() == i,
            forall|j: int|
                0 <= j < r@.len() ==> {
                    &&& is_message_id((#[trigger] r@[j]).message_id@)
                    &&& r@[j].message_type == MessageType::Init
                    &&& r@[j].payload@ == payload@
                },
        decreases connection_count - i,
    {
        r.push(
            WebSocketMessage {
                message_id: new_message_id(),
                message_type: MessageType::Init,
                payload: payload.clone(),
            },
        );
        i = i + 1;
    }
    r
}

} // verus!
