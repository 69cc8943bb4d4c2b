use termhub::config::Config;
use termhub::events::{ClientEvent, ServerEvent};
use termhub::mirror::SessionMetadataStore;
use termhub::registry::SessionManager;
use termhub::session::SessionConfig;
use termhub::streaming::{handle_client_event, handle_request_history, handle_send_input};

fn manager() -> SessionManager {
    let config = Config {
        host: "127.0.0.1".to_string(),
        port: 3000,
        executable_path: "/bin/echo".to_string(),
        max_sessions: 10,
        allowed_directories: vec!["/tmp".to_string()],
    };
    let mut m = SessionManager::new(config);
    m.set_metadata_store(SessionMetadataStore::new());
    m
}

fn create(m: &mut SessionManager, name: &str) -> String {
    m.create_session(SessionConfig {
        name: name.to_string(),
        directory: "/tmp".to_string(),
    })
    .expect("create should succeed")
}

#[test]
fn test_send_input_unknown_session_yields_error_event() {
    let m = manager();
    let reply = handle_send_input("ghost".to_string(), "ls\n".to_string(), &m);
    assert_eq!(reply.events.len(), 1);
    match &reply.events[0] {
        ServerEvent::Error { message } => {
            assert_eq!(message, "session ghost not found");
        }
        other => panic!("expected an error event, got {:?}", other),
    }
    assert!(reply.forward.is_none());
}

#[test]
fn test_send_input_known_session_is_forwarded() {
    let mut m = manager();
    let id = create(&mut m, "build");
    let reply = handle_send_input(id.clone(), "ls\n".to_string(), &m);
    assert!(reply.events.is_empty());
    let forward = reply.forward.expect("input should be forwarded");
    assert_eq!(forward.session_id, id);
    assert_eq!(forward.input, "ls\n");
}

#[test]
fn test_request_history_replays_three_chunks_in_order() {
    let mut m = manager();
    let id = create(&mut m, "build");
    m.add_session_output(&id, "first\n".to_string()).unwrap();
    m.add_session_output(&id, "second\n".to_string()).unwrap();
    m.add_session_output(&id, "third\n".to_string()).unwrap();

    let events = handle_request_history(id.clone(), &m);
    assert_eq!(events.len(), 3);
    let expected = ["first\n", "second\n", "third\n"];
    for (event, want) in events.iter().zip(expected.iter()) {
        match event {
            ServerEvent::TerminalOutput { session_id, data } => {
                assert_eq!(session_id, &id);
                assert_eq!(data, want);
            }
            other => panic!("expected terminal output, got {:?}", other),
        }
    }
}

#[test]
fn test_request_history_unknown_session_yields_error_event() {
    let m = manager();
    let events = handle_request_history("ghost".to_string(), &m);
    assert_eq!(events.len(), 1);
    assert!(matches!(&events[0], ServerEvent::Error { .. }));
}

#[test]
fn test_management_events_rejected_on_streaming_plane() {
    let m = manager();

    let reply = handle_client_event(
        ClientEvent::CreateSession {
            name: "build".to_string(),
            directory: "/tmp".to_string(),
        },
        &m,
    );
    assert_eq!(reply.events.len(), 1);
    match &reply.events[0] {
        ServerEvent::Error { message } => {
            assert_eq!(message, "session management must use the control API");
        }
        other => panic!("expected an error event, got {:?}", other),
    }
    assert!(reply.forward.is_none());

    let reply = handle_client_event(
        ClientEvent::CloseSession {
            session_id: "whatever".to_string(),
        },
        &m,
    );
    assert_eq!(reply.events.len(), 1);
    assert!(matches!(&reply.events[0], ServerEvent::Error { .. }));
    // the registry was not touched: still no sessions
    assert!(m.list_sessions().unwrap().is_empty());
}

#[test]
fn test_dispatch_routes_send_input_and_history() {
    let mut m = manager();
    let id = create(&mut m, "build");
    m.add_session_output(&id, "hello\n".to_string()).unwrap();

    let reply = handle_client_event(
        ClientEvent::SendInput {
            session_id: id.clone(),
            input: "pwd\n".to_string(),
        },
        &m,
    );
    assert!(reply.forward.is_some());

    let reply = handle_client_event(
        ClientEvent::RequestHistory {
            session_id: id.clone(),
        },
        &m,
    );
    assert_eq!(reply.events.len(), 1);
    assert!(matches!(
        &reply.events[0],
        ServerEvent::TerminalOutput { .. }
    ));
    assert!(reply.forward.is_none());
}
