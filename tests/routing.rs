use safe_vk::{message_text, Error, Event, Filter, ListenerMethod, SafeVk, Target, Update};

fn update(kind: &str, object: &str) -> Update {
    Event {
        update_type: String::from(kind),
        event_id: String::from("ev"),
        v: String::from("5.199"),
        object: serde_json::from_str(object).unwrap(),
    }
}

fn message(text: &str) -> Update {
    let object = format!("{{\"message\":{{\"text\":{:?},\"peer_id\":5}}}}", text);
    update("message_new", &object)
}

fn table() -> SafeVk<&'static str> {
    SafeVk::new()
        .command(String::from("/start"), "start", Filter::Strict)
        .ok()
        .unwrap()
        .command(String::from("/help"), "help", Filter::Flexible)
        .ok()
        .unwrap()
}

#[test]
fn duplicate_routes_are_refused_at_registration() {
    let r = table().command(String::from("/start"), "again", Filter::Strict);
    match r {
        Err(Error::ListenerExists { trigger }) => assert_eq!(trigger, "/start"),
        _ => panic!("expected a refusal"),
    }
}

#[test]
fn same_trigger_with_another_filter_is_a_new_route() {
    let vk = table().command(String::from("/start"), "loose", Filter::Sensitive);
    assert!(vk.is_ok());
}

#[test]
fn a_second_fallback_is_refused() {
    let vk = table().watch("fallback").ok().unwrap();
    assert!(matches!(vk.watch("other"), Err(Error::FallbackExists)));
}

#[test]
fn listen_refuses_an_existing_method() {
    let m = ListenerMethod::command(String::from("/help"), Filter::Flexible);
    assert!(matches!(table().listen(m, "x"), Err(Error::ListenerExists { .. })));
}

#[test]
fn command_method_listens_for_new_messages() {
    match ListenerMethod::command(String::from("/go"), Filter::Strict) {
        ListenerMethod::Command { update_type, trigger, filter } => {
            assert_eq!(update_type, "message_new");
            assert_eq!(trigger, "/go");
            assert_eq!(filter, Filter::Strict);
        }
        ListenerMethod::Watch => panic!("expected a command"),
    }
}

#[test]
fn a_matching_command_route_is_selected() {
    let vk = table().watch("fallback").ok().unwrap();
    let target = vk.resolve(&message("/start"));
    assert_eq!(target, Some(Target::Command(0)));
    assert_eq!(vk.handler(target.unwrap()), Some(&"start"));
    let target = vk.resolve(&message(" /HELP "));
    assert_eq!(target, Some(Target::Command(1)));
    assert_eq!(vk.handler(target.unwrap()), Some(&"help"));
}

#[test]
fn the_first_registered_match_wins() {
    let vk = SafeVk::new()
        .command(String::from("/start"), "sensitive", Filter::Sensitive)
        .ok()
        .unwrap()
        .command(String::from("/start"), "strict", Filter::Strict)
        .ok()
        .unwrap();
    assert_eq!(vk.resolve(&message("/start")), Some(Target::Command(0)));
}

#[test]
fn unmatched_events_go_to_the_fallback() {
    let vk = table().watch("fallback").ok().unwrap();
    let target = vk.resolve(&message("hello there"));
    assert_eq!(target, Some(Target::Fallback));
    assert_eq!(vk.handler(Target::Fallback), Some(&"fallback"));
}

#[test]
fn unmatched_events_are_dropped_without_a_fallback() {
    let vk = table();
    assert_eq!(vk.resolve(&message("hello there")), None);
    assert_eq!(vk.handler(Target::Fallback), None);
}

#[test]
fn events_of_another_kind_skip_command_routes() {
    let vk = table().watch("fallback").ok().unwrap();
    let ev = update("message_event", "{\"message\":{\"text\":\"/start\"}}");
    assert_eq!(vk.resolve(&ev), Some(Target::Fallback));
}

#[test]
fn events_without_text_skip_command_routes() {
    let vk = table();
    let ev = update("message_new", "{\"peer_id\":3}");
    assert_eq!(message_text(&ev), None);
    assert_eq!(vk.resolve(&ev), None);
}

#[test]
fn message_text_reads_the_nested_text() {
    let ev = message("/start");
    assert_eq!(message_text(&ev), Some("/start"));
}

#[test]
fn select_uses_the_given_hits() {
    let vk = table().watch("fallback").ok().unwrap();
    assert_eq!(vk.select("message_new", &vec![false, true]), Some(Target::Command(1)));
    assert_eq!(vk.select("message_new", &vec![true, true]), Some(Target::Command(0)));
    assert_eq!(vk.select("message_new", &vec![false, false]), Some(Target::Fallback));
    assert_eq!(vk.select("group_join", &vec![true, true]), Some(Target::Fallback));
}

#[test]
fn resolve_text_needs_text() {
    let vk = table();
    assert_eq!(vk.resolve_text("message_new", Some("/start")), Some(Target::Command(0)));
    assert_eq!(vk.resolve_text("message_new", None), None);
}

#[test]
fn handler_of_an_unknown_position_is_none() {
    assert_eq!(table().handler(Target::Command(9)), None);
}
