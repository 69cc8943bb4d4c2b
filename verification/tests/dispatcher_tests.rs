use termhub::config::Config;
use termhub::dispatcher::{SessionProcessor, SessionRequest, SessionResponse};
use termhub::errors::SessionError;
use termhub::mirror::SessionMetadataStore;
use termhub::registry::SessionManager;

fn manager(max_sessions: usize) -> SessionManager {
    let config = Config {
        host: "127.0.0.1".to_string(),
        port: 3000,
        executable_path: "/bin/echo".to_string(),
        max_sessions,
        allowed_directories: vec!["/tmp".to_string()],
    };
    let mut m = SessionManager::new(config);
    m.set_metadata_store(SessionMetadataStore::new());
    m
}

#[test]
fn test_submit_fails_fast_when_queue_full() {
    let mut p = SessionProcessor::new(2);
    assert!(p.submit(SessionRequest::GetSessions).is_ok());
    assert!(p.submit(SessionRequest::GetSessions).is_ok());
    assert!(matches!(
        p.submit(SessionRequest::GetSessions),
        Err(SessionError::Backpressure)
    ));
}

#[test]
fn test_step_on_empty_queue_serves_nothing() {
    let mut p = SessionProcessor::new(4);
    let mut m = manager(10);
    assert!(p.step(&mut m).is_none());
}

#[test]
fn test_run_gives_exactly_one_response_per_request_in_order() {
    let mut p = SessionProcessor::new(8);
    let mut m = manager(10);

    p.submit(SessionRequest::CreateSession {
        name: "build".to_string(),
        directory: "/tmp".to_string(),
    })
    .unwrap();
    p.submit(SessionRequest::GetSessions).unwrap();
    p.submit(SessionRequest::DeleteSession {
        session_id: "no-such-id".to_string(),
    })
    .unwrap();

    let responses = p.run(&mut m);
    assert_eq!(responses.len(), 3);

    let created_id = match &responses[0] {
        SessionResponse::Created(Ok(id)) => id.clone(),
        other => panic!("expected a successful create, got {:?}", other),
    };
    match &responses[1] {
        SessionResponse::Sessions(Ok(infos)) => {
            assert_eq!(infos.len(), 1);
            assert_eq!(infos[0].id, created_id);
        }
        other => panic!("expected a session list, got {:?}", other),
    }
    assert!(matches!(
        &responses[2],
        SessionResponse::Deleted(Err(SessionError::NotFound))
    ));
}

#[test]
fn test_dispatcher_create_is_linearized_with_capacity() {
    // Five creation requests race through the single queue with capacity
    // two: exactly two succeed, three fail with the capacity error.
    let mut p = SessionProcessor::new(8);
    let mut m = manager(2);
    for i in 0..5 {
        p.submit(SessionRequest::CreateSession {
            name: format!("job-{}", i),
            directory: "/tmp".to_string(),
        })
        .unwrap();
    }
    let responses = p.run(&mut m);
    let ok = responses
        .iter()
        .filter(|r| matches!(r, SessionResponse::Created(Ok(_))))
        .count();
    let capacity = responses
        .iter()
        .filter(|r| matches!(r, SessionResponse::Created(Err(SessionError::Capacity))))
        .count();
    assert_eq!(ok, 2);
    assert_eq!(capacity, 3);
    assert_eq!(m.list_sessions().unwrap().len(), 2);
}

#[test]
fn test_run_drains_the_queue() {
    let mut p = SessionProcessor::new(4);
    let mut m = manager(10);
    p.submit(SessionRequest::GetSessions).unwrap();
    let _ = p.run(&mut m);
    // a drained queue accepts new submissions again
    assert!(p.submit(SessionRequest::GetSessions).is_ok());
}
