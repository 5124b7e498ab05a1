use strata_foundry_bridge::engine::{engine_result, EngineOutcome};
use strata_foundry_bridge::handle::HandleRegistry;

fn echo(resource: &String, command_json: &str) -> EngineOutcome {
    EngineOutcome::Output(format!("{}:{}", resource, command_json))
}

#[test]
fn new_registry_is_empty() {
    let registry: HandleRegistry<String> = HandleRegistry::new();
    assert!(registry.lookup(0).is_none());
    assert!(registry.lookup(1).is_none());
    assert!(registry.lookup(u64::MAX).is_none());
}

#[test]
fn ids_start_at_one_and_go_up_by_one() {
    let mut registry: HandleRegistry<String> = HandleRegistry::new();
    for expected in 1u64..=50u64 {
        let id = registry.register(Ok(format!("db{}", expected)));
        assert_eq!(id, Ok(expected));
    }
}

#[test]
fn many_opens_give_as_many_distinct_ids() {
    let mut registry: HandleRegistry<String> = HandleRegistry::new();
    let mut ids: Vec<u64> = Vec::new();
    for k in 0u64..200u64 {
        ids.push(registry.open_memory(|| Ok(format!("db{}", k))).unwrap());
    }
    assert_eq!(ids.len(), 200);
    let mut sorted = ids.clone();
    sorted.sort();
    sorted.dedup();
    assert_eq!(sorted.len(), 200);
    for (k, id) in ids.iter().enumerate() {
        assert_eq!(registry.lookup(*id), Some(&format!("db{}", k)));
    }
}

#[test]
fn closed_ids_are_not_issued_again() {
    let mut registry: HandleRegistry<String> = HandleRegistry::new();
    let a = registry.open_memory(|| Ok("a".to_string())).unwrap();
    let b = registry.open_memory(|| Ok("b".to_string())).unwrap();
    assert_eq!((a, b), (1, 2));
    registry.close(a);
    registry.close(b);
    let c = registry.open_memory(|| Ok("c".to_string())).unwrap();
    assert_eq!(c, 3);
    assert!(registry.lookup(a).is_none());
    assert!(registry.lookup(b).is_none());
    assert_eq!(registry.lookup(c), Some(&"c".to_string()));
}

#[test]
fn failed_open_hands_the_reason_back_and_uses_no_id() {
    let mut registry: HandleRegistry<String> = HandleRegistry::new();
    let failed = registry.open("/nowhere", |p: &str| Err(format!("no database at {}", p)));
    assert_eq!(failed, Err("no database at /nowhere".to_string()));
    let failed = registry.open_memory(|| Err("out of memory".to_string()));
    assert_eq!(failed, Err("out of memory".to_string()));
    let failed = registry.register(Err("refused".to_string()));
    assert_eq!(failed, Err("refused".to_string()));
    assert_eq!(registry.register(Ok("x".to_string())), Ok(1));
}

#[test]
fn open_hands_the_path_to_the_opener() {
    let mut registry: HandleRegistry<String> = HandleRegistry::new();
    let id = registry.open("/data/x.strata", |p: &str| Ok(p.to_uppercase())).unwrap();
    assert_eq!(registry.lookup(id), Some(&"/DATA/X.STRATA".to_string()));
}

#[test]
fn lookup_finds_exactly_the_open_handles() {
    let mut registry: HandleRegistry<String> = HandleRegistry::new();
    registry.register(Ok("one".to_string())).unwrap();
    registry.register(Ok("two".to_string())).unwrap();
    registry.register(Ok("three".to_string())).unwrap();
    registry.close(2);
    assert_eq!(registry.lookup(1), Some(&"one".to_string()));
    assert_eq!(registry.lookup(2), None);
    assert_eq!(registry.lookup(3), Some(&"three".to_string()));
    assert_eq!(registry.lookup(4), None);
    assert_eq!(registry.lookup(0), None);
}

#[test]
fn close_is_idempotent() {
    let mut registry: HandleRegistry<String> = HandleRegistry::new();
    registry.register(Ok("one".to_string())).unwrap();
    registry.register(Ok("two".to_string())).unwrap();
    registry.close(1);
    registry.close(1);
    assert_eq!(registry.lookup(1), None);
    assert_eq!(registry.lookup(2), Some(&"two".to_string()));
    // an id that was never issued
    registry.close(40);
    registry.close(0);
    registry.close(u64::MAX);
    assert_eq!(registry.lookup(2), Some(&"two".to_string()));
    assert_eq!(registry.register(Ok("three".to_string())), Ok(3));
}

#[test]
fn close_drops_the_resource() {
    let marker = std::rc::Rc::new(());
    let mut registry: HandleRegistry<std::rc::Rc<()>> = HandleRegistry::new();
    let id = registry.register(Ok(marker.clone())).unwrap();
    assert_eq!(std::rc::Rc::strong_count(&marker), 2);
    registry.close(id);
    assert_eq!(std::rc::Rc::strong_count(&marker), 1);
}

#[test]
fn execute_runs_the_command_on_the_right_resource() {
    let mut registry: HandleRegistry<String> = HandleRegistry::new();
    registry.register(Ok("one".to_string())).unwrap();
    registry.register(Ok("two".to_string())).unwrap();
    assert_eq!(registry.execute(2, "{\"Ping\":null}", echo), Ok("two:{\"Ping\":null}".to_string()));
    assert_eq!(registry.execute(1, "x", echo), Ok("one:x".to_string()));
}

#[test]
fn execute_on_a_closed_handle_is_invalid_handle() {
    let mut registry: HandleRegistry<String> = HandleRegistry::new();
    registry.register(Ok("one".to_string())).unwrap();
    registry.close(1);
    assert_eq!(registry.execute(1, "x", echo), Err("invalid handle".to_string()));
    assert_eq!(registry.execute(2, "x", echo), Err("invalid handle".to_string()));
}

#[test]
fn execute_does_not_ask_the_engine_for_an_invalid_handle() {
    let registry: HandleRegistry<String> = HandleRegistry::new();
    let asked = std::cell::Cell::new(false);
    let result = registry.execute(1, "x", |_r: &String, _c: &str| {
        asked.set(true);
        EngineOutcome::Output(String::new())
    });
    assert_eq!(result, Err("invalid handle".to_string()));
    assert!(!asked.get());
}

#[test]
fn engine_result_words_each_outcome() {
    assert_eq!(
        engine_result(EngineOutcome::Output("{\"Pong\":{}}".to_string())),
        Ok("{\"Pong\":{}}".to_string())
    );
    assert_eq!(
        engine_result(EngineOutcome::MalformedCommand(
            "expected value at line 1 column 1".to_string()
        )),
        Err("invalid command JSON: expected value at line 1 column 1".to_string())
    );
    assert_eq!(
        engine_result(EngineOutcome::EngineError("{\"KeyNotFound\":{\"key\":\"a\"}}".to_string())),
        Err("{\"KeyNotFound\":{\"key\":\"a\"}}".to_string())
    );
    assert_eq!(
        engine_result(EngineOutcome::UnencodableError("branch \"x\" is locked".to_string())),
        Err("{\"Internal\":{\"reason\":\"branch \\\"x\\\" is locked\"}}".to_string())
    );
    assert_eq!(
        engine_result(EngineOutcome::UnencodableOutput("key must be a string".to_string())),
        Err("failed to serialize output: key must be a string".to_string())
    );
}

#[test]
fn unencodable_error_is_an_error_structure_that_parses() {
    let reason = engine_result(EngineOutcome::UnencodableError(
        "a \"b\" \\ c \u{1f}".to_string(),
    ))
    .unwrap_err();
    let v: serde_json::Value = serde_json::from_str(&reason).unwrap();
    assert_eq!(v["Internal"]["reason"].as_str(), Some("a \"b\" \\ c \u{1f}"));
}

#[test]
fn dispatch_asks_the_engine_only_for_an_open_handle() {
    let mut registry: HandleRegistry<String> = HandleRegistry::new();
    registry.register(Ok("one".to_string())).unwrap();
    let reported = registry.dispatch(1, "x", echo);
    assert!(matches!(reported, Some(EngineOutcome::Output(ref text)) if text == "one:x"));
    let asked = std::cell::Cell::new(false);
    let reported = registry.dispatch(2, "x", |r: &String, c: &str| {
        asked.set(true);
        echo(r, c)
    });
    assert!(reported.is_none());
    assert!(!asked.get());
}

#[test]
fn engine_result_with_empty_details() {
    assert_eq!(engine_result(EngineOutcome::Output(String::new())), Ok(String::new()));
    assert_eq!(
        engine_result(EngineOutcome::MalformedCommand(String::new())),
        Err("invalid command JSON: ".to_string())
    );
    assert_eq!(
        engine_result(EngineOutcome::UnencodableError(String::new())),
        Err("{\"Internal\":{\"reason\":\"\"}}".to_string())
    );
    assert_eq!(
        engine_result(EngineOutcome::UnencodableOutput(String::new())),
        Err("failed to serialize output: ".to_string())
    );
}
