use termhub::config::Config;
use termhub::errors::SessionError;
use termhub::mirror::SessionMetadataStore;
use termhub::registry::SessionManager;
use termhub::session::SessionConfig;

fn manager(allowed: Vec<&str>, max_sessions: usize) -> SessionManager {
    let config = Config {
        host: "127.0.0.1".to_string(),
        port: 3000,
        executable_path: "/bin/echo".to_string(),
        max_sessions,
        allowed_directories: allowed.into_iter().map(|s| s.to_string()).collect(),
    };
    let mut m = SessionManager::new(config);
    m.set_metadata_store(SessionMetadataStore::new());
    m
}

fn cfg(name: &str, directory: &str) -> SessionConfig {
    SessionConfig {
        name: name.to_string(),
        directory: directory.to_string(),
    }
}

#[test]
fn test_create_then_list_has_exactly_one_entry() {
    let mut m = manager(vec!["/tmp"], 10);
    let id = m.create_session(cfg("build", "/tmp")).expect("create should succeed");

    let infos = m.list_sessions().expect("list never fails");
    let matching: Vec<_> = infos.iter().filter(|i| i.id == id).collect();
    assert_eq!(matching.len(), 1);
    assert_eq!(matching[0].name, "build");
    assert_eq!(matching[0].directory, "/tmp");
}

#[test]
fn test_create_ids_are_distinct() {
    let mut m = manager(vec!["/tmp"], 10);
    let a = m.create_session(cfg("one", "/tmp")).expect("create one");
    let b = m.create_session(cfg("two", "/tmp")).expect("create two");
    assert_ne!(a, b);
    assert_eq!(m.list_sessions().unwrap().len(), 2);
}

#[test]
fn test_policy_error_for_disallowed_directory() {
    let mut m = manager(vec!["/home"], 10);
    let r = m.create_session(cfg("build", "/etc"));
    assert!(matches!(r, Err(SessionError::Policy)));
    // nothing was created
    assert!(m.list_sessions().unwrap().is_empty());
}

#[test]
fn test_capacity_exactly_k_succeed() {
    let k = 2;
    let n = 5;
    let mut m = manager(vec!["/tmp"], k);
    let mut ok = 0;
    let mut capacity_errors = 0;
    for i in 0..n {
        match m.create_session(cfg(&format!("job-{}", i), "/tmp")) {
            Ok(_) => ok += 1,
            Err(SessionError::Capacity) => capacity_errors += 1,
            Err(e) => panic!("unexpected error: {:?}", e),
        }
    }
    assert_eq!(ok, k);
    assert_eq!(capacity_errors, n - k);
    assert_eq!(m.list_sessions().unwrap().len(), k);
}

#[test]
fn test_close_succeeds_once_then_not_found() {
    let mut m = manager(vec!["/tmp"], 10);
    let id = m.create_session(cfg("build", "/tmp")).expect("create");

    assert!(m.close_session(&id).is_ok());
    assert!(matches!(m.close_session(&id), Err(SessionError::NotFound)));
    assert!(!m.session_exists(&id));
}

#[test]
fn test_close_unknown_id_not_found() {
    let mut m = manager(vec!["/tmp"], 10);
    assert!(matches!(
        m.close_session("no-such-id"),
        Err(SessionError::NotFound)
    ));
}

#[test]
fn test_append_then_get_round_trips() {
    let mut m = manager(vec!["/tmp"], 10);
    let id = m.create_session(cfg("build", "/tmp")).expect("create");

    m.add_session_output(&id, "alpha".to_string()).unwrap();
    m.add_session_output(&id, "beta".to_string()).unwrap();
    m.add_session_output(&id, "gamma".to_string()).unwrap();

    let out = m.get_session_output(&id).unwrap();
    assert_eq!(out, vec!["alpha", "beta", "gamma"]);
}

#[test]
fn test_output_ops_on_unknown_id() {
    let mut m = manager(vec!["/tmp"], 10);
    assert!(matches!(
        m.add_session_output("ghost", "x".to_string()),
        Err(SessionError::NotFound)
    ));
    assert!(matches!(
        m.get_session_output("ghost"),
        Err(SessionError::NotFound)
    ));
}

#[test]
fn test_wildcard_allows_any_directory() {
    let mut m = manager(vec!["*"], 10);
    let id = m.create_session(cfg("anywhere", "/tmp")).expect("wildcard allows it");
    assert!(m.session_exists(&id));
}

#[test]
fn test_spawn_error_for_missing_executable() {
    let config = Config {
        host: "127.0.0.1".to_string(),
        port: 3000,
        executable_path: "/no/such/binary".to_string(),
        max_sessions: 10,
        allowed_directories: vec!["/tmp".to_string()],
    };
    let mut m = SessionManager::new(config);
    let r = m.create_session(cfg("build", "/tmp"));
    assert!(matches!(r, Err(SessionError::Spawn(_))));
    assert!(m.list_sessions().unwrap().is_empty());
}

#[test]
fn test_metadata_follows_lifecycle() {
    let mut m = manager(vec!["/tmp"], 10);
    let id = m.create_session(cfg("build", "/tmp")).expect("create");

    let meta = m.get_session_metadata(&id).expect("metadata exists");
    assert_eq!(meta.id, id);
    assert_eq!(meta.name, "build");
    assert_eq!(meta.directory, "/tmp");

    let copy = meta.duplicate();
    assert_eq!(copy.id, meta.id);
    assert_eq!(copy.name, meta.name);
    assert_eq!(copy.directory, meta.directory);
    assert_eq!(copy.created_at, meta.created_at);

    m.close_session(&id).unwrap();
    assert!(m.get_session_metadata(&id).is_none());
}

#[test]
fn test_pty_pair_available_while_running() {
    let mut m = manager(vec!["/tmp"], 10);
    let id = m.create_session(cfg("build", "/tmp")).expect("create");
    assert!(m.get_pty_pair(&id).is_ok());

    m.close_session(&id).unwrap();
    assert!(matches!(
        m.get_pty_pair(&id),
        Err(SessionError::NotFound)
    ));
}

#[test]
fn test_metadata_store_basics() {
    let mut store = SessionMetadataStore::new();
    assert!(!store.session_exists("a"));

    let m = termhub::session::Session::new(
        "a".to_string(),
        "one".to_string(),
        "/tmp".to_string(),
    )
    .metadata();
    store.update_metadata("a", m);
    assert!(store.session_exists("a"));

    store.remove_metadata("a");
    assert!(!store.session_exists("a"));
    // removing again is harmless
    store.remove_metadata("a");
    assert!(!store.session_exists("a"));
}

#[test]
fn test_example_scenario() {
    // Create a session in an allowed directory, see it listed, reject a
    // disallowed one, then close the first id twice.
    let mut m = manager(vec!["/tmp"], 10);

    let id = m.create_session(cfg("build", "/tmp")).expect("allowed create");
    let infos = m.list_sessions().unwrap();
    assert!(infos.iter().any(|i| i.id == id));

    assert!(matches!(
        m.create_session(cfg("build", "/etc")),
        Err(SessionError::Policy)
    ));

    assert!(m.close_session(&id).is_ok());
    assert!(matches!(m.close_session(&id), Err(SessionError::NotFound)));
}
