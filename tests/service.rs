use std::collections::HashMap;

use text_searcher::protocol::answer;
use text_searcher::requests::{delete_request, get_request, insert_request, parse_id, search_request};
use text_searcher::text::{contains_term, has_whitespace, is_white_space};
use text_searcher::{
    default_collection, default_database, internal_error, not_found, render, start, step, Action,
    Body, ErrorResponse, Event, InsertedResponse, Metrics, MongoDB, Operation, Reply,
    SearchResponse, ServiceError, Stage, Text, TextId, TextPayload,
};

/// An in-memory store and cache that answer the protocol's actions.
struct Sim {
    store: HashMap<TextId, String>,
    cache: HashMap<TextId, String>,
    cache_up: bool,
    store_up: bool,
    metrics: Metrics,
    calls: Vec<String>,
}

impl Sim {
    fn new() -> Sim {
        Sim {
            store: HashMap::new(),
            cache: HashMap::new(),
            cache_up: true,
            store_up: true,
            metrics: Metrics::new(),
            calls: Vec::new(),
        }
    }

    fn answer(&mut self, action: Action<String>) -> Event<String> {
        match action {
            Action::CacheGet(id) => {
                self.calls.push("cache_get".to_string());
                match self.cache.get(&id) {
                    Some(v) if self.cache_up => Event::CacheHit(v.clone()),
                    _ => Event::CacheMiss,
                }
            }
            Action::CacheSet(id, v) => {
                self.calls.push("cache_set".to_string());
                if self.cache_up {
                    self.cache.insert(id, v);
                }
                Event::CacheDone
            }
            Action::CacheDelete(id) => {
                self.calls.push("cache_delete".to_string());
                if self.cache_up {
                    self.cache.remove(&id);
                }
                Event::CacheDone
            }
            Action::StoreInsert(id, d) => {
                self.calls.push("store_insert".to_string());
                if !self.store_up {
                    return Event::StoreFailed;
                }
                self.store.insert(id, d);
                Event::StoreInserted
            }
            Action::StoreFind(id) => {
                self.calls.push("store_find".to_string());
                if !self.store_up {
                    return Event::StoreFailed;
                }
                match self.store.get(&id) {
                    Some(v) => Event::StoreFound(v.clone()),
                    None => Event::StoreAbsent,
                }
            }
            Action::StoreDelete(id) => {
                self.calls.push("store_delete".to_string());
                if !self.store_up {
                    return Event::StoreFailed;
                }
                match self.store.remove(&id) {
                    Some(_) => Event::StoreDeleted(1),
                    None => Event::StoreDeleted(0),
                }
            }
            Action::Respond(_) => unreachable!(),
        }
    }

    fn perform(&mut self, op: Operation<String>) -> Reply<String> {
        let (mut stage, mut action) = start(op, &mut self.metrics);
        loop {
            if let Action::Respond(r) = action {
                return r;
            }
            let event = self.answer(action);
            let (s, a) = step(stage, event, &mut self.metrics);
            stage = s;
            action = a;
        }
    }

    fn insert(&mut self, data: &str) -> TextId {
        match self.perform(insert_request(data.to_string())) {
            Reply::Created(id) => id,
            other => panic!("insert failed: {:?}", other),
        }
    }
}

fn get(id: TextId) -> Operation<String> {
    Operation::Get { id }
}

fn search(id: TextId, term: &str) -> Operation<String> {
    Operation::Search { id, term: term.to_string() }
}

const SAMPLE_ID: &str = "a1a2a3a4-b1b2-c1c2-d1d2-d3d4d5d6d7d8";

#[test]
fn insert_then_get_returns_data() {
    let mut sim = Sim::new();
    let id = sim.insert("hello world");
    assert_eq!(sim.perform(get(id)), Reply::Text("hello world".to_string()));
}

#[test]
fn insert_then_get_with_cache_down() {
    let mut sim = Sim::new();
    sim.cache_up = false;
    let id = sim.insert("hello");
    assert!(sim.cache.is_empty());
    assert_eq!(sim.perform(get(id)), Reply::Text("hello".to_string()));
    assert_eq!(sim.metrics.misses(), 1);
}

#[test]
fn get_unknown_is_not_found() {
    let mut sim = Sim::new();
    let id = TextId { value: 42 };
    assert_eq!(sim.perform(get(id)), Reply::Failed(ServiceError::NotFound));
    assert!(sim.cache.is_empty());
}

#[test]
fn get_after_delete_is_not_found() {
    let mut sim = Sim::new();
    let id = sim.insert("gone soon");
    assert_eq!(sim.perform(Operation::Delete { id }), Reply::Deleted);
    assert_eq!(sim.perform(get(id)), Reply::Failed(ServiceError::NotFound));
}

#[test]
fn delete_succeeds_exactly_once() {
    let mut sim = Sim::new();
    let id = sim.insert("x");
    assert_eq!(sim.perform(Operation::Delete { id }), Reply::Deleted);
    assert_eq!(sim.perform(Operation::Delete { id }), Reply::Failed(ServiceError::NotFound));
}

#[test]
fn delete_invalidates_cache_before_store() {
    let mut sim = Sim::new();
    let id = sim.insert("x");
    sim.calls.clear();
    sim.perform(Operation::Delete { id });
    assert_eq!(sim.calls, vec!["cache_delete".to_string(), "store_delete".to_string()]);
    assert!(!sim.cache.contains_key(&id));
}

#[test]
fn delete_of_duplicate_records_is_invariant_violation() {
    let mut m = Metrics::new();
    let id = TextId { value: 7 };
    let (s, a) = start(Operation::Delete { id }, &mut m);
    assert_eq!(a, Action::CacheDelete(id));
    let (s, a) = step(s, Event::CacheDone, &mut m);
    assert_eq!(a, Action::StoreDelete(id));
    let (_, a) = step(s, Event::StoreDeleted(2), &mut m);
    assert_eq!(a, Action::Respond(Reply::Failed(ServiceError::InvariantViolation)));
}

#[test]
fn second_get_is_a_hit_after_refill() {
    let mut sim = Sim::new();
    sim.cache_up = false;
    let id = sim.insert("refill me");
    sim.cache_up = true;
    assert_eq!(sim.perform(get(id)), Reply::Text("refill me".to_string()));
    assert_eq!((sim.metrics.hits(), sim.metrics.misses()), (0, 1));
    assert_eq!(sim.cache.get(&id), Some(&"refill me".to_string()));
    assert_eq!(sim.perform(get(id)), Reply::Text("refill me".to_string()));
    assert_eq!((sim.metrics.hits(), sim.metrics.misses()), (1, 1));
}

#[test]
fn hit_counter_grows_after_insert_and_two_gets() {
    let mut sim = Sim::new();
    let before = sim.metrics.hits();
    let id = sim.insert("counted");
    sim.perform(get(id));
    sim.perform(get(id));
    assert!(sim.metrics.hits() >= before + 1);
    assert_eq!(sim.metrics.hits(), 2);
    assert_eq!(sim.metrics.misses(), 0);
}

#[test]
fn hit_does_not_consult_store() {
    let mut sim = Sim::new();
    let id = sim.insert("cached");
    sim.calls.clear();
    sim.store_up = false;
    assert_eq!(sim.perform(get(id)), Reply::Text("cached".to_string()));
    assert_eq!(sim.calls, vec!["cache_get".to_string()]);
}

#[test]
fn store_failure_is_internal_and_not_cached() {
    let mut sim = Sim::new();
    let id = sim.insert("data");
    sim.cache.clear();
    sim.store_up = false;
    assert_eq!(sim.perform(get(id)), Reply::Failed(ServiceError::InfrastructureFailure));
    assert!(sim.cache.is_empty());
}

#[test]
fn insert_store_failure_creates_nothing() {
    let mut sim = Sim::new();
    sim.store_up = false;
    let r = sim.perform(insert_request("lost".to_string()));
    assert_eq!(r, Reply::Failed(ServiceError::InfrastructureFailure));
    assert!(sim.cache.is_empty());
    assert!(sim.store.is_empty());
}

#[test]
fn insert_writes_store_then_cache() {
    let mut sim = Sim::new();
    let id = sim.insert("ordered");
    assert_eq!(sim.calls, vec!["store_insert".to_string(), "cache_set".to_string()]);
    assert_eq!(sim.store.get(&id), Some(&"ordered".to_string()));
    assert_eq!(sim.cache.get(&id), Some(&"ordered".to_string()));
}

#[test]
fn search_uses_substring_semantics() {
    let mut sim = Sim::new();
    let id = sim.insert("the quick brown fox");
    assert_eq!(sim.perform(search(id, "quick")), Reply::Found(true));
    assert_eq!(sim.perform(search(id, "quickly")), Reply::Found(false));
    assert_eq!(sim.perform(search(id, "Quick")), Reply::Found(false));
    let other = sim.insert("quickly");
    assert_eq!(sim.perform(search(other, "quick")), Reply::Found(true));
}

#[test]
fn search_with_space_is_invalid_input() {
    let mut sim = Sim::new();
    let id = sim.insert("has space here");
    assert_eq!(sim.perform(search(id, "has space")), Reply::Failed(ServiceError::InvalidTerm));
    sim.calls.clear();
    let unknown = TextId { value: 1 };
    assert_eq!(sim.perform(search(unknown, "has space")), Reply::Failed(ServiceError::InvalidTerm));
    assert!(sim.calls.is_empty());
}

#[test]
fn search_of_unknown_id_is_not_found() {
    let mut sim = Sim::new();
    assert_eq!(sim.perform(search(TextId { value: 9 }, "x")), Reply::Failed(ServiceError::NotFound));
}

#[test]
fn search_counts_each_term() {
    let mut sim = Sim::new();
    let id = sim.insert("abc");
    sim.perform(search(id, "a"));
    sim.perform(search(id, "a"));
    sim.perform(search(id, "has space"));
    sim.perform(search(TextId { value: 3 }, "zz"));
    assert_eq!(sim.metrics.times_searched("a"), 2);
    assert_eq!(sim.metrics.times_searched("has space"), 1);
    assert_eq!(sim.metrics.times_searched("zz"), 1);
    assert_eq!(sim.metrics.times_searched("b"), 0);
}

#[test]
fn repeated_cached_gets_are_identical() {
    let mut sim = Sim::new();
    let id = sim.insert("same bytes");
    let first = sim.perform(get(id));
    for _ in 0..5 {
        assert_eq!(sim.perform(get(id)), first);
    }
    assert_eq!(sim.metrics.hits(), 6);
}

#[test]
fn interleaved_gets_all_return_data() {
    let mut sim = Sim::new();
    let id = sim.insert("shared");
    sim.cache.clear();
    let mut flights: Vec<(Stage<String>, Action<String>)> = Vec::new();
    for _ in 0..4 {
        flights.push(start(get(id), &mut sim.metrics));
    }
    let mut replies = Vec::new();
    while !flights.is_empty() {
        let mut next = Vec::new();
        for (stage, action) in flights.into_iter().rev() {
            match action {
                Action::Respond(r) => replies.push(r),
                a => {
                    let ev = sim.answer(a);
                    next.push(step(stage, ev, &mut sim.metrics));
                }
            }
        }
        flights = next;
    }
    assert_eq!(replies.len(), 4);
    for r in replies {
        assert_eq!(r, Reply::Text("shared".to_string()));
    }
}

#[test]
fn mismatched_event_is_internal_failure() {
    let mut m = Metrics::new();
    let (s, _) = start(get(TextId { value: 5 }), &mut m);
    let (s, a) = step(s, Event::StoreInserted, &mut m);
    assert_eq!(s, Stage::Done);
    assert_eq!(a, Action::Respond(Reply::Failed(ServiceError::InfrastructureFailure)));
}

#[test]
fn contains_term_cases() {
    assert!(contains_term("the quick brown fox", "quick"));
    assert!(!contains_term("the quick brown fox", "quickly"));
    assert!(contains_term("quickly", "quick"));
    assert!(contains_term("abc", ""));
    assert!(!contains_term("", "a"));
    assert!(contains_term("aaab", "aab"));
    assert!(contains_term("grüße", "üß"));
}

#[test]
fn whitespace_detection() {
    assert!(has_whitespace("has space"));
    assert!(has_whitespace("tab\there"));
    assert!(has_whitespace("line\nbreak"));
    assert!(has_whitespace("nb\u{A0}sp"));
    assert!(!has_whitespace("word"));
    assert!(!has_whitespace(""));
}

#[test]
fn answer_get_and_search() {
    assert_eq!(answer("abc".to_string(), None), Reply::Text("abc".to_string()));
    assert_eq!(answer("abc".to_string(), Some("bc".to_string())), Reply::Found(true));
    assert_eq!(answer("abc".to_string(), Some("cb".to_string())), Reply::Found(false));
}

#[test]
fn parse_ids() {
    let id = TextId::parse(SAMPLE_ID).unwrap();
    assert_eq!(id.value, 0xa1a2a3a4b1b2c1c2d1d2d3d4d5d6d7d8);
    assert_eq!(TextId::parse("a1a2a3a4b1b2c1c2d1d2d3d4d5d6d7d8"), Some(id));
    assert_eq!(TextId::parse("not-a-uuid"), None);
    assert_eq!(TextId::parse(""), None);
    assert_eq!(parse_id("zz"), Err(ServiceError::MalformedId));
    assert_eq!(parse_id(SAMPLE_ID), Ok(id));
}

#[test]
fn generated_ids_are_random_v4() {
    let a = TextId::generate();
    let b = TextId::generate();
    assert_ne!(a, b);
    assert_eq!(a.value & 0xF000C000000000000000, 0x40008000000000000000);
    assert_eq!((a.value >> 76) & 0xF, 4);
}

#[test]
fn requests_reject_malformed_ids() {
    assert_eq!(get_request("bad"), Err(ServiceError::MalformedId));
    assert_eq!(delete_request("bad"), Err(ServiceError::MalformedId));
    assert_eq!(search_request("bad", "t".to_string()), Err(ServiceError::MalformedId));
    let id = TextId::parse(SAMPLE_ID).unwrap();
    assert_eq!(get_request(SAMPLE_ID), Ok(Operation::Get { id }));
    assert_eq!(delete_request(SAMPLE_ID), Ok(Operation::Delete { id }));
    assert_eq!(
        search_request(SAMPLE_ID, "t".to_string()),
        Ok(Operation::Search { id, term: "t".to_string() })
    );
    match insert_request("d".to_string()) {
        Operation::Insert { data, .. } => assert_eq!(data, "d"),
        other => panic!("unexpected {:?}", other),
    }
}

#[test]
fn status_codes_and_bodies() {
    let id = TextId { value: 1 };
    assert_eq!(render(Reply::Created(id)), (201, Body::Inserted(InsertedResponse { id })));
    assert_eq!(
        render(Reply::Text("t".to_string())),
        (200, Body::Text(TextPayload { data: "t".to_string() }))
    );
    assert_eq!(render(Reply::Found(false)), (200, Body::Found(SearchResponse { found: false })));
    assert_eq!(render(Reply::Deleted), (204, Body::Empty));
    assert_eq!(render(Reply::Failed(ServiceError::NotFound)).0, 404);
    assert_eq!(render(Reply::Failed(ServiceError::MalformedId)).0, 400);
    assert_eq!(render(Reply::Failed(ServiceError::InvalidTerm)).0, 400);
    assert_eq!(render(Reply::Failed(ServiceError::InfrastructureFailure)).0, 500);
    assert_eq!(render(Reply::Failed(ServiceError::InvariantViolation)).0, 500);
    assert_eq!(ErrorResponse::for_error(ServiceError::NotFound).error, "text not found");
    assert_eq!(ErrorResponse::for_error(ServiceError::NotFound).kind, "not_found");
    assert_eq!(ErrorResponse::for_error(ServiceError::MalformedId).kind, "invalid_input");
    assert_eq!(ErrorResponse::for_error(ServiceError::InvalidTerm).kind, "invalid_input");
    assert_eq!(
        ErrorResponse::for_error(ServiceError::InvariantViolation).kind,
        "invariant_violation"
    );
    assert_eq!(
        ErrorResponse::for_error(ServiceError::InfrastructureFailure).kind,
        "infrastructure_failure"
    );
    assert_ne!(
        ErrorResponse::for_error(ServiceError::InvariantViolation).error,
        ErrorResponse::for_error(ServiceError::InfrastructureFailure).error
    );
}

#[test]
fn catcher_bodies() {
    assert_eq!(internal_error().error, "internal error");
    assert_eq!(internal_error().kind, "infrastructure_failure");
    assert_eq!(not_found("GET", "/nope").error, "GET /nope is not a valid operation");
    assert_eq!(not_found("GET", "/nope").kind, "not_found");
}

#[test]
fn config_defaults() {
    assert_eq!(default_collection(), "texts");
    assert_eq!(default_database(), "db");
    let m = MongoDB::new("mongodb://localhost:27017".to_string());
    assert_eq!(m.collection, "texts");
    assert_eq!(m.database, "db");
    assert_eq!(m.host, "mongodb://localhost:27017");
}

#[test]
fn text_record_keeps_fields() {
    let t = Text::new(TextId { value: 2 }, "body".to_string());
    assert_eq!(t.id, TextId { value: 2 });
    assert_eq!(t.data, "body");
}

#[test]
fn id_text_is_hyphenated() {
    let id = TextId::parse(SAMPLE_ID).unwrap();
    assert_eq!(id.to_text(), SAMPLE_ID);
    assert_eq!(TextId { value: 0 }.to_text(), "00000000-0000-0000-0000-000000000000");
    assert_eq!(TextId::parse(&id.to_text()), Some(id));
}

#[test]
fn malformed_id_answers_invalid_uuid() {
    for bad in ["not-a-uuid", "123"] {
        let e = get_request(bad).unwrap_err();
        let (status, body) = render(Reply::Failed(e));
        assert_eq!(status, 400);
        assert_eq!(
            body,
            Body::Error(ErrorResponse {
                kind: "invalid_input".to_string(),
                error: "invalid uuid".to_string()
            })
        );
        let e = delete_request(bad).unwrap_err();
        assert_eq!(render(Reply::Failed(e)).1, body);
    }
}

#[test]
fn spaced_term_answers_its_own_message() {
    let mut sim = Sim::new();
    let id = sim.insert("text");
    let (status, body) = render(sim.perform(search(id, "two words")));
    assert_eq!(status, 400);
    assert_eq!(
        body,
        Body::Error(ErrorResponse {
            kind: "invalid_input".to_string(),
            error: "term is not allowed to contain whitespaces".to_string()
        })
    );
}

#[test]
fn interleaved_deletes_succeed_once() {
    let mut sim = Sim::new();
    let id = sim.insert("contested");
    let mut flights: Vec<(Stage<String>, Action<String>)> = Vec::new();
    for _ in 0..3 {
        flights.push(start(Operation::Delete { id }, &mut sim.metrics));
    }
    let mut replies = Vec::new();
    while !flights.is_empty() {
        let mut next = Vec::new();
        for (stage, action) in flights.into_iter().rev() {
            match action {
                Action::Respond(r) => replies.push(r),
                a => {
                    let ev = sim.answer(a);
                    next.push(step(stage, ev, &mut sim.metrics));
                }
            }
        }
        flights = next;
    }
    assert_eq!(replies.iter().filter(|r| **r == Reply::Deleted).count(), 1);
    assert_eq!(
        replies.iter().filter(|r| **r == Reply::Failed(ServiceError::NotFound)).count(),
        2
    );
}

#[test]
fn whitespace_code_points() {
    for c in ['\t', '\n', '\u{B}', '\u{C}', '\r', ' ', '\u{85}', '\u{A0}', '\u{1680}', '\u{2000}',
        '\u{200A}', '\u{2028}', '\u{2029}', '\u{202F}', '\u{205F}', '\u{3000}'] {
        assert!(is_white_space(c));
        assert!(c.is_whitespace());
    }
    for c in ['a', '1', '\u{200B}', '\u{180E}', '\u{FEFF}', '\u{0}', '\u{8}', '\u{E}'] {
        assert!(!is_white_space(c));
        assert_eq!(is_white_space(c), c.is_whitespace());
    }
}
