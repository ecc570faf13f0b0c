use gertrud::commands::{auth_store_key, authorize_command, required_headers, RejectStatus};
use gertrud::key_type::{KeyType, KeyTypeError};
use gertrud::permissions::Permissions;
use gertrud::text::{joined, str_equal};
use gertrud::websocket::websocket_handler::admit_websocket;

#[test]
fn flag_values() {
    assert_eq!(Permissions::manage_keys().bits(), 1);
    assert_eq!(Permissions::read_send().bits(), 2);
    assert_eq!(Permissions::write_send().bits(), 4);
    assert_eq!(Permissions::admin().bits(), 7);

}

#[test]
fn truncate_drops_unknown_bits() {
    assert_eq!(Permissions::from_bits_truncate(0xff).bits(), 7);
    assert_eq!(Permissions::from_bits_truncate(8).bits(), 0);
    assert_eq!(Permissions::from_bits_truncate(10).bits(), 2);
    assert_eq!(Permissions::from_bits_truncate(u64::MAX).bits(), 7);
}

#[test]
fn truncate_twice_is_truncate_once() {
    let once = Permissions::from_bits_truncate(0b1101);
    let twice = Permissions::from_bits_truncate(once.bits());
    assert_eq!(once, twice);
}

#[test]
fn contains_flags() {
    let admin = Permissions::admin();
    assert!(admin.contains(Permissions::manage_keys()));
    assert!(admin.contains(Permissions::read_send()));
    assert!(admin.contains(Permissions::write_send()));

    let read = Permissions::read_send();
    assert!(!read.contains(Permissions::write_send()));
    assert!(!read.contains(admin));
    assert!(read.contains(read));
    assert!(Permissions::from_bits_truncate(3).contains(Permissions::read_send()));
    assert!(!Permissions::from_bits_truncate(5).contains(Permissions::read_send()));
}

#[test]
fn key_type_names() {
    assert_eq!(KeyType::from_name("proxy"), Ok(KeyType::Proxy));
    assert_eq!(KeyType::from_name("logging"), Ok(KeyType::Logging));
    assert_eq!(KeyType::from_name("server"), Ok(KeyType::Server));
    assert_eq!(KeyType::from_name("Proxy"), Err(KeyTypeError::InvalidKeyType));
    assert_eq!(KeyType::from_name(""), Err(KeyTypeError::InvalidKeyType));
    assert_eq!(KeyType::from_name("proxy "), Err(KeyTypeError::InvalidKeyType));
    assert_eq!(KeyTypeError::InvalidKeyType.description(), "Invalid key type");
}

#[test]
fn text_helpers() {
    assert!(str_equal("abc", "abc"));
    assert!(!str_equal("abc", "abd"));
    assert!(!str_equal("abc", "ab"));
    assert_eq!(joined("auth.", "xyz"), "auth.xyz");
    assert_eq!(joined("", ""), "");
}

#[test]
fn headers_required() {
    assert_eq!(
        required_headers(Some("key"), Some("srv")),
        Ok(("key".to_string(), "srv".to_string()))
    );
    assert_eq!(required_headers(None, Some("srv")), Err(RejectStatus::Unauthorized));
    assert_eq!(required_headers(Some("key"), None), Err(RejectStatus::Unauthorized));
    assert_eq!(required_headers(None, None), Err(RejectStatus::Unauthorized));
}

#[test]
fn store_key_of_auth_header() {
    assert_eq!(auth_store_key("secret"), "auth.secret");
    assert_eq!(auth_store_key(""), "auth.");
}

#[test]
fn status_codes() {
    assert_eq!(RejectStatus::Unauthorized.code(), 401);
    assert_eq!(RejectStatus::InternalServerError.code(), 500);
}

#[test]
fn command_authorization() {
    let ok = authorize_command::<()>("srv-1".to_string(), Ok("logging".to_string())).unwrap();
    assert_eq!(ok.key_type, KeyType::Logging);
    assert_eq!(ok.identifier, "srv-1");
    let bad = authorize_command::<()>("srv-1".to_string(), Ok("admin".to_string()));
    assert_eq!(bad.unwrap_err(), RejectStatus::Unauthorized);
    let failed = authorize_command("srv-1".to_string(), Err("connection refused"));
    assert_eq!(failed.unwrap_err(), RejectStatus::Unauthorized);
}

#[test]
fn websocket_admission() {
    let p = admit_websocket::<()>(Ok(0b1010)).unwrap();
    assert_eq!(p.bits(), 2);
    assert!(p.contains(Permissions::read_send()));
    assert_eq!(admit_websocket::<&str>(Err("nil")), Err(RejectStatus::InternalServerError));
}
