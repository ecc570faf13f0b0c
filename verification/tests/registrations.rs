use gertrud::commands::broadcast_messages;
use gertrud::commands::send_request::send_request;
use gertrud::commands::server_registrations::{
    get_server_registrations, RegisterServerBody, RegistrationAction, RegistrationEvent,
    RegistrationStep, server_registrations,
};
use gertrud::commands::settings::{get_settings, post_settings, replaces_stored_settings};
use gertrud::drakentemmer::server_details::{
    default_allocation, get_from_ptero, ServerDetailsAllocationAttributes,
    ServerDetailsAllocationData, ServerDetailsAllocations, ServerDetailsAttributes,
    ServerDetailsRelationships, ServerDetailsResponse,
};
use gertrud::drakentemmer::{concurrency_limit, server_details_url};
use gertrud::registered_server::RegisteredServer;
use gertrud::websocket::messages::{MessageType, SendRequest, WebSocketMessagePayload};

fn body(register: bool) -> RegisterServerBody {
    RegisterServerBody { register, server_type: "lobby".to_string() }
}

fn record(host: &str, port: u16) -> RegisteredServer {
    RegisteredServer {
        identifier: "srv".to_string(),
        server_type: "lobby".to_string(),
        host: host.to_string(),
        port,
    }
}

#[test]
fn register_flow_announces_panel_address() {
    let (mut flow, action) = server_registrations("srv".to_string(), body(true));
    assert!(matches!(action, RegistrationAction::FetchDetails));
    let action = flow.handle(RegistrationEvent::DetailsFetched(Ok(("10.0.0.5".to_string(), 25565))));
    assert!(matches!(action, RegistrationAction::DeleteRecord));
    let action = flow.handle(RegistrationEvent::RecordDeleted(false));
    match action {
        RegistrationAction::InsertRecord(r) => {
            assert_eq!(r.identifier, "srv");
            assert_eq!(r.server_type, "lobby");
            assert_eq!(r.host, "10.0.0.5");
            assert_eq!(r.port, 25565);
        }
        _ => panic!("expected insert"),
    }
    match flow.handle(RegistrationEvent::RecordInserted(true)) {
        RegistrationAction::Announce(a) => {
            assert!(a.register);
            assert_eq!(a.server_type, "lobby");
            assert_eq!(a.identifier, "srv");
            assert_eq!(a.host, "10.0.0.5");
            assert_eq!(a.port, 25565);
        }
        _ => panic!("expected announcement"),
    }
    assert!(matches!(flow.step, RegistrationStep::Finished));
}

#[test]
fn register_flow_failures() {
    let (mut flow, _) = server_registrations("srv".to_string(), body(true));
    match flow.handle(RegistrationEvent::DetailsFetched(Err("Could not get server details".to_string()))) {
        RegistrationAction::Fail(m) => assert_eq!(m, "Could not get server details"),
        _ => panic!("expected failure"),
    }
    let (mut flow, _) = server_registrations("srv".to_string(), body(true));
    flow.handle(RegistrationEvent::DetailsFetched(Ok(("h".to_string(), 1))));
    flow.handle(RegistrationEvent::RecordDeleted(true));
    match flow.handle(RegistrationEvent::RecordInserted(false)) {
        RegistrationAction::Fail(m) => assert_eq!(m, "Could not insert server"),
        _ => panic!("expected failure"),
    }
}

#[test]
fn unregister_flow_announces_stored_address() {
    let (mut flow, action) = server_registrations("srv".to_string(), body(false));
    assert!(matches!(action, RegistrationAction::FindRecord));
    let action = flow.handle(RegistrationEvent::RecordFound(Some(record("play.example", 25570))));
    assert!(matches!(action, RegistrationAction::DeleteRecord));
    match flow.handle(RegistrationEvent::RecordDeleted(true)) {
        RegistrationAction::Announce(a) => {
            assert!(!a.register);
            assert_eq!(a.identifier, "srv");
            assert_eq!(a.host, "play.example");
            assert_eq!(a.port, 25570);
        }
        _ => panic!("expected announcement"),
    }
}

#[test]
fn unregister_flow_failures() {
    let (mut flow, _) = server_registrations("srv".to_string(), body(false));
    match flow.handle(RegistrationEvent::RecordFound(None)) {
        RegistrationAction::Fail(m) => assert_eq!(m, "Server not found"),
        _ => panic!("expected failure"),
    }
    let (mut flow, _) = server_registrations("srv".to_string(), body(false));
    flow.handle(RegistrationEvent::RecordFound(Some(record("h", 2))));
    match flow.handle(RegistrationEvent::RecordDeleted(false)) {
        RegistrationAction::Fail(m) => assert_eq!(m, "Could not delete server"),
        _ => panic!("expected failure"),
    }
}

#[test]
fn registrations_listing() {
    let items = vec![Ok(record("a", 1)), Ok(record("b", 2))];
    let list = get_server_registrations::<()>(Ok(items)).unwrap();
    assert_eq!(list.len(), 2);
    assert!(list.iter().all(|r| r.register));
    assert_eq!(list[0].host, "a");
    assert_eq!(list[1].port, 2);
    let items = vec![Ok(record("a", 1)), Err("bad record".to_string()), Err("later".to_string())];
    assert_eq!(get_server_registrations::<()>(Ok(items)).unwrap_err(), "bad record");
    assert_eq!(
        get_server_registrations(Err::<Vec<Result<RegisteredServer, String>>, _>("down")).unwrap_err(),
        "Could not get server registrations"
    );
    assert_eq!(get_server_registrations::<()>(Ok(Vec::new())).unwrap().len(), 0);
}

fn allocation(ip: &str, alias: Option<&str>, port: u16, is_default: bool) -> ServerDetailsAllocationData {
    ServerDetailsAllocationData {
        attributes: ServerDetailsAllocationAttributes {
            ip: ip.to_string(),
            ip_alias: alias.map(|a| a.to_string()),
            port,
            is_default,
        },
    }
}

fn details(data: Vec<ServerDetailsAllocationData>) -> ServerDetailsResponse {
    ServerDetailsResponse {
        attributes: ServerDetailsAttributes {
            identifier: "srv".to_string(),
            uuid: "u".to_string(),
            name: "n".to_string(),
            relationships: ServerDetailsRelationships { allocations: ServerDetailsAllocations { data } },
        },
    }
}

#[test]
fn panel_address_selection() {
    let d = details(vec![allocation("1.1.1.1", None, 1, false), allocation("2.2.2.2", Some("mc.example"), 2, true), allocation("3.3.3.3", None, 3, true)]);
    assert_eq!(default_allocation(&d.attributes.relationships.allocations.data), 1);
    assert_eq!(get_from_ptero::<()>(Ok(d)), Ok(("mc.example".to_string(), 2)));
    let d = details(vec![allocation("1.1.1.1", None, 10, false), allocation("2.2.2.2", None, 20, false)]);
    assert_eq!(get_from_ptero::<()>(Ok(d)), Ok(("1.1.1.1".to_string(), 10)));
    assert_eq!(
        get_from_ptero(Err::<ServerDetailsResponse, _>("timeout")),
        Err("Could not get server details".to_string())
    );
}

#[test]
fn panel_urls_and_limits() {
    assert_eq!(server_details_url("https://panel.example", "abc123"), "https://panel.example/api/client/servers/abc123");
    assert_eq!(concurrency_limit(None), 1);
    assert_eq!(concurrency_limit(Some(4)), 4);
}

#[test]
fn broadcasts() {
    let msgs = broadcast_messages(3, &WebSocketMessagePayload::GenericOk);
    assert_eq!(msgs.len(), 3);
    assert!(msgs.iter().all(|m| m.message_type == MessageType::Init && m.message_id.chars().count() == 21));
    assert!(msgs.iter().all(|m| matches!(m.payload, WebSocketMessagePayload::GenericOk)));
    let body = SendRequest { players: vec!["p".to_string()], server: "s".to_string() };
    let msgs = send_request(2, &body);
    assert_eq!(msgs.len(), 2);
    for m in &msgs {
        match &m.payload {
            WebSocketMessagePayload::SendRequest(r) => {
                assert_eq!(r.players, vec!["p".to_string()]);
                assert_eq!(r.server, "s");
            }
            _ => panic!("wrong payload"),
        }
    }
    assert!(send_request(0, &body).is_empty());
}

#[test]
fn settings_outcomes() {
    assert!(replaces_stored_settings::<u8, ()>(&Ok(Some(1))));
    assert!(!replaces_stored_settings::<u8, ()>(&Ok(None)));
    assert!(!replaces_stored_settings::<u8, &str>(&Err("x")));
    assert_eq!(post_settings::<()>(Ok(())), Ok(()));
    assert_eq!(post_settings(Err("dup")), Err("Could not insert settings".to_string()));
    assert_eq!(get_settings::<u8, ()>(Ok(Some(5))), Ok(5));
    assert_eq!(get_settings::<u8, ()>(Ok(None)), Err("Settings not found".to_string()));
    assert_eq!(get_settings::<u8, &str>(Err("x")), Err("Could not get settings".to_string()));
}
