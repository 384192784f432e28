use chat_relay::connection::{
    validate_connect, make_ai_message, ConnPhase, Connection, ConnectError, ConnectRequest,
    InboundAction, AI_REPLY_DELAY_MILLIS, CONTEXT_FETCH_LIMIT, HISTORY_REPLAY_LIMIT,
};
use chat_relay::message::{ChatMessage, PersistedMessage};
use chat_relay::policy::should_ai_respond;
use chat_relay::prompt::{build_prompt, extract_reply, GenCandidate, GenContent, GenPart,
    GenResponse};
use chat_relay::registry::SessionRegistry;
use chat_relay::router::{publish, should_deliver, PublishOutcome};
use chat_relay::store::MessageStore;

fn pm(id: &str, user: &str, body: &str, ts: u64, is_ai: bool, session: &str) -> PersistedMessage {
    PersistedMessage {
        id: id.to_string(),
        username: user.to_string(),
        message: body.to_string(),
        timestamp: ts,
        is_ai,
        session_id: session.to_string(),
    }
}

fn cm(id: &str, user: &str, body: &str, ts: u64, is_ai: bool, session: &str) -> ChatMessage {
    ChatMessage {
        id: id.to_string(),
        username: user.to_string(),
        message: body.to_string(),
        timestamp: ts,
        is_ai,
        session_id: session.to_string(),
    }
}

#[test]
fn trigger_on_question_mark() {
    assert!(should_ai_respond("Is this ok?"));
}

#[test]
fn no_trigger_without_vocabulary() {
    assert!(!should_ai_respond("no trigger words here at all"));
}

#[test]
fn trigger_on_substring_inside_word() {
    // "hi" inside "this": the deliberately low-precision substring match.
    assert!(should_ai_respond("this is fine"));
}

#[test]
fn trigger_is_deterministic_across_calls() {
    let body = "Is this ok?";
    let first = should_ai_respond(body);
    for _ in 0..5 {
        assert_eq!(should_ai_respond(body), first);
    }
}

#[test]
fn trigger_is_case_insensitive() {
    assert!(should_ai_respond("THANK YOU"));
    assert!(should_ai_respond("Hello everyone"));
}

#[test]
fn trigger_on_ai_inside_said() {
    assert!(should_ai_respond("said"));
}

#[test]
fn no_trigger_on_empty_body() {
    assert!(!should_ai_respond(""));
}

#[test]
fn recent_sorts_by_timestamp_regardless_of_insertion_order() {
    let mut store = MessageStore::new();
    store.append(pm("m1", "alice", "late", 500, false, "s1"));
    store.append(pm("m2", "alice", "early", 100, false, "s1"));
    store.append(pm("m3", "alice", "middle", 300, false, "s1"));
    let got = store.recent("s1", 10);
    let ts: Vec<u64> = got.iter().map(|m| m.timestamp).collect();
    assert_eq!(ts, vec![100, 300, 500]);
}

#[test]
fn recent_keeps_only_newest_up_to_limit() {
    let mut store = MessageStore::new();
    store.append(pm("m1", "alice", "a", 500, false, "s1"));
    store.append(pm("m2", "alice", "b", 100, false, "s1"));
    store.append(pm("m3", "alice", "c", 300, false, "s1"));
    let got = store.recent("s1", 2);
    let ts: Vec<u64> = got.iter().map(|m| m.timestamp).collect();
    assert_eq!(ts, vec![300, 500]);
}

#[test]
fn recent_filters_by_session() {
    let mut store = MessageStore::new();
    store.append(pm("m1", "alice", "mine", 100, false, "s1"));
    store.append(pm("m2", "bob", "theirs", 200, false, "s2"));
    store.append(pm("m3", "alice", "also mine", 300, false, "s1"));
    let got = store.recent("s1", 10);
    assert_eq!(got.len(), 2);
    assert!(got.iter().all(|m| m.session_id == "s1"));
    let other = store.recent("s2", 10);
    assert_eq!(other.len(), 1);
    assert_eq!(other[0].id, "m2");
}

#[test]
fn recent_on_unknown_session_is_empty() {
    let mut store = MessageStore::new();
    store.append(pm("m1", "alice", "hi", 100, false, "s1"));
    assert!(store.recent("nobody", 10).is_empty());
}

#[test]
fn recent_on_empty_store_is_empty() {
    let store = MessageStore::new();
    assert!(store.recent("s1", 10).is_empty());
    assert!(store.recent_global(10).is_empty());
}

#[test]
fn recent_with_zero_limit_is_empty() {
    let mut store = MessageStore::new();
    store.append(pm("m1", "alice", "hi", 100, false, "s1"));
    assert!(store.recent("s1", 0).is_empty());
}

#[test]
fn recent_with_equal_timestamps_stays_ordered() {
    let mut store = MessageStore::new();
    store.append(pm("m1", "alice", "a", 7, false, "s1"));
    store.append(pm("m2", "alice", "b", 2, false, "s1"));
    store.append(pm("m3", "alice", "c", 7, false, "s1"));
    let all = store.recent("s1", 10);
    let ts: Vec<u64> = all.iter().map(|m| m.timestamp).collect();
    assert_eq!(ts, vec![2, 7, 7]);
    // A tight limit keeps the newest; the tie is cut either way.
    let cut = store.recent("s1", 2);
    let ts: Vec<u64> = cut.iter().map(|m| m.timestamp).collect();
    assert_eq!(ts, vec![7, 7]);
}

#[test]
fn question_mark_triggers_in_non_ascii_text() {
    assert!(should_ai_respond("¿seguro?"));
    assert!(!should_ai_respond("árbol ñu"));
}

#[test]
fn empty_registry_knows_nobody() {
    let reg = SessionRegistry::new();
    assert_eq!(reg.current_session("a@x.com"), None);
}

#[test]
fn recent_global_ignores_sessions() {
    let mut store = MessageStore::new();
    store.append(pm("m1", "alice", "a", 300, false, "s1"));
    store.append(pm("m2", "bob", "b", 100, false, "s2"));
    let got = store.recent_global(10);
    let ids: Vec<&str> = got.iter().map(|m| m.id.as_str()).collect();
    assert_eq!(ids, vec!["m2", "m1"]);
}

#[test]
fn attach_records_a_fresh_session() {
    let mut reg = SessionRegistry::new();
    let sid = reg.attach("a@x.com".to_string());
    assert_eq!(sid.len(), 36);
    assert_eq!(reg.current_session("a@x.com"), Some(sid));
}

#[test]
fn reattach_overwrites_with_a_new_session() {
    let mut reg = SessionRegistry::new();
    let first = reg.attach("a@x.com".to_string());
    let second = reg.attach("a@x.com".to_string());
    assert_eq!(reg.current_session("a@x.com"), Some(second.clone()));
    // The old session is orphaned from lookups, not resumed.
    assert_ne!(first, second);
}

#[test]
fn attach_leaves_other_identities_alone() {
    let mut reg = SessionRegistry::new();
    let a = reg.attach("a@x.com".to_string());
    let _b = reg.attach("b@x.com".to_string());
    assert_eq!(reg.current_session("a@x.com"), Some(a));
}

#[test]
fn detach_removes_the_mapping() {
    let mut reg = SessionRegistry::new();
    reg.attach("a@x.com".to_string());
    reg.detach("a@x.com");
    assert_eq!(reg.current_session("a@x.com"), None);
}

#[test]
fn duplicate_detach_is_a_no_op() {
    let mut reg = SessionRegistry::new();
    reg.attach("a@x.com".to_string());
    let b = reg.attach("b@x.com".to_string());
    reg.detach("a@x.com");
    reg.detach("a@x.com");
    reg.detach("never-attached@x.com");
    assert_eq!(reg.current_session("a@x.com"), None);
    assert_eq!(reg.current_session("b@x.com"), Some(b));
}

#[test]
fn connect_requires_username_first() {
    let r = validate_connect(None, Some("a@x.com".to_string()));
    assert_eq!(r.err(), Some(ConnectError::MissingUsername));
    let r = validate_connect(None, None);
    assert_eq!(r.err(), Some(ConnectError::MissingUsername));
}

#[test]
fn connect_requires_email() {
    let r = validate_connect(Some("Alice".to_string()), None);
    assert_eq!(r.err(), Some(ConnectError::MissingEmail));
}

#[test]
fn connect_accepts_both_parameters() {
    let req = validate_connect(Some("Alice".to_string()), Some("a@x.com".to_string())).unwrap();
    assert_eq!(req.username, "Alice");
    assert_eq!(req.email, "a@x.com");
}

#[test]
fn forged_attribution_is_overwritten() {
    let req = ConnectRequest { username: "Alice".to_string(), email: "a@x.com".to_string() };
    let conn = Connection::register(req, "real-session".to_string());
    let forged = cm("c1", "Mallory", "hello?", 42, true, "other-session");
    match conn.plan_inbound(Some(forged)) {
        InboundAction::Accept { message, respond } => {
            assert!(!message.is_ai);
            assert_eq!(message.session_id, "real-session");
            assert_eq!(message.username, "Alice");
            assert_eq!(message.id, "c1");
            assert_eq!(message.message, "hello?");
            assert_eq!(message.timestamp, 42);
            assert!(respond);
        }
        InboundAction::Skip => panic!("a decoded frame must be accepted"),
    }
}

#[test]
fn undecodable_frame_is_skipped() {
    let req = ConnectRequest { username: "Alice".to_string(), email: "a@x.com".to_string() };
    let conn = Connection::register(req, "s1".to_string());
    assert!(matches!(conn.plan_inbound(None), InboundAction::Skip));
}

#[test]
fn teardown_runs_exactly_once() {
    let req = ConnectRequest { username: "Alice".to_string(), email: "a@x.com".to_string() };
    let mut conn = Connection::register(req, "s1".to_string());
    conn.start_streaming();
    assert_eq!(conn.phase, ConnPhase::Streaming);
    assert!(conn.begin_teardown());
    assert!(!conn.begin_teardown());
    conn.finish_teardown();
    assert!(!conn.begin_teardown());
    assert_eq!(conn.phase, ConnPhase::Closed);
}

#[test]
fn ai_message_is_attributed_to_the_assistant() {
    let m = make_ai_message("Sure, happy to help.".to_string(), "s1".to_string(), 999);
    assert!(m.is_ai);
    assert_eq!(m.username, "AI Assistant");
    assert_eq!(m.message, "Sure, happy to help.");
    assert_eq!(m.timestamp, 999);
    assert_eq!(m.session_id, "s1");
    assert_eq!(m.id.len(), 36);
}

#[test]
fn pacing_and_limits_match_the_protocol() {
    assert_eq!(AI_REPLY_DELAY_MILLIS, 1000);
    assert_eq!(HISTORY_REPLAY_LIMIT, 50);
    assert_eq!(CONTEXT_FETCH_LIMIT, 10);
}

#[test]
fn publish_without_subscribers_is_not_an_error() {
    let (tx, rx) = tokio::sync::broadcast::channel::<ChatMessage>(16);
    drop(rx);
    let out = publish(&tx, cm("m1", "alice", "anyone there?", 1, false, "s1"));
    assert!(matches!(out, PublishOutcome::NoSubscribers));
}

#[test]
fn publish_reaches_a_subscriber() {
    let (tx, mut rx) = tokio::sync::broadcast::channel::<ChatMessage>(16);
    let out = publish(&tx, cm("m1", "alice", "hi all", 1, false, "s1"));
    assert!(matches!(out, PublishOutcome::Delivered { receivers: 1 }));
    let got = rx.try_recv().unwrap();
    assert_eq!(got.id, "m1");
    assert_eq!(got.message, "hi all");
}

#[test]
fn delivery_filter_matches_sessions_only() {
    let m = cm("m1", "alice", "hi", 1, false, "s1");
    assert!(should_deliver(&m, "s1"));
    assert!(!should_deliver(&m, "s2"));
}

#[test]
fn prompt_without_context_has_no_conversation_section() {
    let got = build_prompt("hello there", "Alice", &Vec::new());
    let expected = format!(
        "You are a helpful AI assistant in a group chat. The user '{}' just sent a message. \
         Respond in a friendly, conversational way. Keep your response concise (1-2 sentences \
         max) and engaging. Be helpful and natural.\n\n\
         \nCurrent message from {}: {}\n\nPlease respond:",
        "Alice", "Alice", "hello there"
    );
    assert_eq!(got, expected);
}

#[test]
fn prompt_lists_five_newest_context_messages_newest_first() {
    let ctx = vec![
        pm("m1", "alice", "one", 1, false, "s1"),
        pm("m2", "bob", "two", 2, false, "s1"),
        pm("m3", "alice", "three", 3, true, "s1"),
        pm("m4", "bob", "four", 4, false, "s1"),
        pm("m5", "alice", "five", 5, false, "s1"),
        pm("m6", "bob", "six", 6, true, "s1"),
    ];
    let got = build_prompt("what now", "Alice", &ctx);
    let mut expected = String::from(
        "You are a helpful AI assistant in a group chat. The user 'Alice' just sent a message. \
         Respond in a friendly, conversational way. Keep your response concise (1-2 sentences \
         max) and engaging. Be helpful and natural.\n\n",
    );
    expected.push_str("Recent conversation:\n");
    for m in ctx.iter().rev().take(5) {
        if m.is_ai {
            expected.push_str(&format!("AI: {}\n", m.message));
        } else {
            expected.push_str(&format!("{}: {}\n", m.username, m.message));
        }
    }
    expected.push_str("\nCurrent message from Alice: what now\n\nPlease respond:");
    assert_eq!(got, expected);
}

#[test]
fn reply_extraction_needs_a_candidate_with_a_part() {
    assert_eq!(extract_reply(GenResponse { candidates: Vec::new() }), None);
    let empty_parts = GenResponse {
        candidates: vec![GenCandidate { content: GenContent { parts: Vec::new() } }],
    };
    assert_eq!(extract_reply(empty_parts), None);
    let full = GenResponse {
        candidates: vec![
            GenCandidate {
                content: GenContent {
                    parts: vec![
                        GenPart { text: "first".to_string() },
                        GenPart { text: "second".to_string() },
                    ],
                },
            },
            GenCandidate { content: GenContent { parts: Vec::new() } },
        ],
    };
    assert_eq!(extract_reply(full), Some("first".to_string()));
}

#[test]
fn end_to_end_session_scoped_conversation() {
    // Client A connects with display "Alice", identity "a@x.com"; client B
    // is concurrently connected in its own session.
    let mut registry = SessionRegistry::new();
    let mut store = MessageStore::new();
    let (tx, mut rx_a) = tokio::sync::broadcast::channel::<ChatMessage>(100);
    let mut rx_b = tx.subscribe();

    let req_a = validate_connect(Some("Alice".to_string()), Some("a@x.com".to_string())).unwrap();
    let session_a = registry.attach(req_a.email.clone());
    let conn_a = Connection::register(req_a, session_a.clone());

    let req_b = validate_connect(Some("Bob".to_string()), Some("b@x.com".to_string())).unwrap();
    let session_b = registry.attach(req_b.email.clone());
    let conn_b = Connection::register(req_b, session_b.clone());
    assert_ne!(session_a, session_b);

    // A sends {body: "hello?"}.
    let frame = cm("w1", "ignored", "hello?", 1000, false, "forged");
    let (accepted, respond) = match conn_a.plan_inbound(Some(frame)) {
        InboundAction::Accept { message, respond } => (message, respond),
        InboundAction::Skip => panic!("frame decodes"),
    };
    assert!(respond, "\"hello?\" contains '?' so the responder fires");
    store.append(accepted.clone().into_persisted());
    publish(&tx, accepted.clone());

    // The store holds one human message in A's session.
    let history = store.recent(&session_a, 50);
    assert_eq!(history.len(), 1);
    assert!(!history[0].is_ai);
    assert_eq!(history[0].session_id, session_a);

    // The automated reply: same session, assistant author, automated flag.
    let context = store.recent(&session_a, 10);
    let prompt = build_prompt(&accepted.message, &accepted.username, &context);
    assert!(prompt.contains("Current message from Alice: hello?"));
    let reply = make_ai_message("Hi Alice!".to_string(), session_a.clone(), 2000);
    store.append(reply.clone().into_persisted());
    publish(&tx, reply.clone());

    // A's outbound loop delivers both; B's delivers neither.
    for _ in 0..2 {
        let m = rx_a.try_recv().unwrap();
        assert!(should_deliver(&m, &session_a));
    }
    let mut seen_by_b = 0;
    while let Ok(m) = rx_b.try_recv() {
        if should_deliver(&m, &conn_b.session_id) {
            seen_by_b += 1;
        }
    }
    assert_eq!(seen_by_b, 0, "B never sees A's session");

    // A's history now holds the conversation in order.
    let after = store.recent(&session_a, 50);
    assert_eq!(after.len(), 2);
    assert!(!after[0].is_ai);
    assert!(after[1].is_ai);
    assert_eq!(after[1].username, "AI Assistant");

    // Teardown on both, idempotently.
    registry.detach("a@x.com");
    registry.detach("a@x.com");
    registry.detach("b@x.com");
    assert_eq!(registry.current_session("a@x.com"), None);
    assert_eq!(registry.current_session("b@x.com"), None);
}
