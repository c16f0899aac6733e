use std::sync::Arc;

use pterodactyl::json::JsonValue;
use pterodactyl::outcome::ProcessResponse;
use pterodactyl::registry::ProcessUnit;
use pterodactyl::server::Server;

enum TestUnit {
    Succeeding,
    Failing,
}

impl ProcessUnit for TestUnit {
    fn invoke(&self) -> Result<ProcessResponse, ProcessResponse> {
        match self {
            TestUnit::Succeeding => Ok(ProcessResponse::new(
                200,
                "ok".to_string(),
                JsonValue::Obj(Vec::new()),
                Vec::new(),
            )),
            TestUnit::Failing => Err(ProcessResponse::new(
                500,
                "boom".to_string(),
                JsonValue::Obj(Vec::new()),
                vec!["x".to_string()],
            )),
        }
    }
}

#[test]
fn dispatch_registered_unit_succeeds() {
    let server: Server<TestUnit> = Server::new();
    server.add_process("test", TestUnit::Succeeding);
    let e = server.dispatch("test");
    assert_eq!(e.code, 200);
    assert_eq!(e.message, "ok");
    assert!(!e.cache);
    assert!(e.cost.nanos < 1_000_000_000);
    assert_eq!(e.hash.len(), 64);
    assert!(e.hash.chars().all(|c| c.is_ascii_hexdigit() && !c.is_ascii_uppercase()));
    assert!(e.verify_hash());
}

#[test]
fn dispatch_unregistered_name_is_not_found() {
    let server: Server<TestUnit> = Server::new();
    server.add_process("test", TestUnit::Succeeding);
    let e = server.dispatch("missing");
    assert_eq!(e.code, 404);
    assert_eq!(e.message, "Not Found");
    assert_eq!(e.errors, vec!["Process not found".to_string()]);
    assert!(!e.cache);
    assert_eq!(e.cost.secs, 0);
    assert_eq!(e.cost.nanos, 0);
    assert!(e.verify_hash());
}

#[test]
fn dispatch_failing_unit_keeps_its_fields() {
    let server: Server<TestUnit> = Server::new();
    server.add_process("test", TestUnit::Failing);
    let e = server.dispatch("test");
    assert_eq!(e.code, 500);
    assert_eq!(e.message, "boom");
    assert!(matches!(&e.data, JsonValue::Obj(m) if m.is_empty()));
    assert_eq!(e.errors, vec!["x".to_string()]);
    assert!(!e.cache);
    assert!(e.timestamp > 0);
    assert_eq!(e.hash.len(), 64);
    assert!(e.verify_hash());
}

#[test]
fn replacement_takes_effect_in_dispatch() {
    let server: Server<TestUnit> = Server::new();
    server.add_process("test", TestUnit::Succeeding);
    server.add_process("test", TestUnit::Failing);
    let e = server.dispatch("test");
    assert_eq!(e.code, 500);
}

#[test]
fn concurrent_dispatches_are_independently_consistent() {
    let server: Arc<Server<TestUnit>> = Arc::new(Server::new());
    server.add_process("test", TestUnit::Succeeding);
    let runtime = tokio::runtime::Builder::new_multi_thread()
        .worker_threads(8)
        .build()
        .unwrap();
    let envelopes = runtime.block_on(async {
        let mut handles = Vec::new();
        for _ in 0..100 {
            let s = Arc::clone(&server);
            handles.push(tokio::task::spawn_blocking(move || s.dispatch("test")));
        }
        let mut collected = Vec::new();
        for h in handles {
            collected.push(h.await.unwrap());
        }
        collected
    });
    assert_eq!(envelopes.len(), 100);
    for e in &envelopes {
        assert_eq!(e.code, 200);
        assert_eq!(e.message, "ok");
        assert!(!e.cache);
        assert!(e.cost.nanos < 1_000_000_000);
        assert_eq!(e.hash.len(), 64);
        assert!(e.verify_hash());
    }
}
