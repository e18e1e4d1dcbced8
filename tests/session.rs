use safe_vk::{
    backoff_seconds, Event, LongPollResponse, LongPollSession, PollOutcome, Recovery, Step,
    MAX_BACKOFF,
};

fn session() -> LongPollSession {
    LongPollSession {
        key: String::from("key-a"),
        server: String::from("https://lp.example/a"),
        ts: String::from("100"),
    }
}

fn fresh() -> LongPollSession {
    LongPollSession {
        key: String::from("key-b"),
        server: String::from("https://lp.example/b"),
        ts: String::from("900"),
    }
}

fn event(id: &str) -> Event<u32> {
    Event {
        update_type: String::from("message_new"),
        event_id: String::from(id),
        v: String::from("5.199"),
        object: 7,
    }
}

fn response(ts: Option<&str>, failed: Option<i32>) -> LongPollResponse<u32> {
    LongPollResponse { ts: ts.map(String::from), updates: None, failed }
}

#[test]
fn history_gap_replaces_the_cursor_only() {
    let mut s = session();
    let step = s.advance(response(Some("105"), Some(1)).outcome());
    assert!(matches!(step, Step::Poll));
    assert_eq!(s.ts, "105");
    assert_eq!(s.key, "key-a");
    assert_eq!(s.server, "https://lp.example/a");
}

#[test]
fn expired_key_renegotiates_and_keeps_the_cursor() {
    let mut s = session();
    let step = s.advance(response(None, Some(2)).outcome());
    assert!(matches!(step, Step::Renegotiate(Recovery::KeyExpired)));
    assert_eq!(s.ts, "100");
    s.recover(Recovery::KeyExpired, fresh());
    assert_eq!(s.key, "key-b");
    assert_eq!(s.server, "https://lp.example/b");
    assert_eq!(s.ts, "100");
}

#[test]
fn lost_session_replaces_all_three_fields() {
    let mut s = session();
    let step = s.advance(response(None, Some(3)).outcome());
    assert!(matches!(step, Step::Renegotiate(Recovery::InformationLost)));
    s.recover(Recovery::InformationLost, fresh());
    assert_eq!(s.key, "key-b");
    assert_eq!(s.server, "https://lp.example/b");
    assert_eq!(s.ts, "900");
}

#[test]
fn a_batch_moves_the_cursor_and_is_handed_on_in_order() {
    let mut s = session();
    let r = LongPollResponse {
        ts: Some(String::from("101")),
        updates: Some(vec![event("e1"), event("e2"), event("e3")]),
        failed: None,
    };
    match s.advance(r.outcome()) {
        Step::Dispatch(events) => {
            let ids: Vec<&str> = events.iter().map(|e| e.event_id.as_str()).collect();
            assert_eq!(ids, vec!["e1", "e2", "e3"]);
        }
        _ => panic!("expected a batch"),
    }
    assert_eq!(s.ts, "101");
    assert_eq!(s.key, "key-a");
}

#[test]
fn an_empty_answer_keeps_the_cursor_when_none_is_given() {
    let mut s = session();
    match s.advance(response(None, None).outcome()) {
        Step::Dispatch(events) => assert!(events.is_empty()),
        _ => panic!("expected a batch"),
    }
    assert_eq!(s.ts, "100");
}

#[test]
fn a_transport_error_changes_nothing() {
    let mut s = session();
    let step = s.advance(PollOutcome::<u32>::TransportError);
    assert!(matches!(step, Step::Poll));
    assert_eq!(s.ts, "100");
    assert_eq!(s.key, "key-a");
    assert_eq!(s.server, "https://lp.example/a");
}

#[test]
fn a_history_gap_without_cursor_is_a_transport_error() {
    assert!(matches!(response(None, Some(1)).outcome(), PollOutcome::TransportError));
}

#[test]
fn unknown_failure_codes_read_as_a_batch() {
    match response(Some("7"), Some(4)).outcome() {
        PollOutcome::Updates { ts, updates } => {
            assert_eq!(ts.as_deref(), Some("7"));
            assert!(updates.is_empty());
        }
        _ => panic!("expected a batch"),
    }
}

#[test]
fn history_gap_outcome_carries_the_new_cursor() {
    match response(Some("105"), Some(1)).outcome() {
        PollOutcome::HistoryGap { new_ts } => assert_eq!(new_ts, "105"),
        _ => panic!("expected a history gap"),
    }
}

#[test]
fn backoff_doubles_up_to_its_bound() {
    assert_eq!(backoff_seconds(0), 0);
    assert_eq!(backoff_seconds(1), 1);
    assert_eq!(backoff_seconds(2), 2);
    assert_eq!(backoff_seconds(5), 16);
    assert_eq!(backoff_seconds(6), 32);
    assert_eq!(backoff_seconds(7), MAX_BACKOFF);
    assert_eq!(backoff_seconds(u32::MAX), MAX_BACKOFF);
}
