use safe_vk::{
    Button, EventAnswer, Error, KeyboardAction, KeyboardColor, OpenApp, OpenLink, ShowSnackbar,
    VkError,
};

#[test]
fn text_buttons_carry_label_payload_and_colour() {
    let b = Button::text("Hi", 5u8, KeyboardColor::Primary);
    match b.action {
        KeyboardAction::Text { button_type, label, payload } => {
            assert_eq!(button_type, "text");
            assert_eq!(label, "Hi");
            assert_eq!(payload, 5);
        }
        _ => panic!("expected a text button"),
    }
    assert_eq!(b.color, Some(KeyboardColor::Primary));
}

#[test]
fn callback_buttons_carry_a_colour() {
    let b = Button::callback("Go", (), KeyboardColor::Negative);
    assert!(matches!(b.action, KeyboardAction::Callback { ref button_type, .. } if button_type == "callback"));
    assert_eq!(b.color, Some(KeyboardColor::Negative));
}

#[test]
fn link_location_pay_and_app_buttons_have_no_colour() {
    let b = Button::open_link("https://a.b", "A", ());
    assert!(matches!(b.action, KeyboardAction::OpenLink { ref button_type, ref link, .. } if button_type == "open_link" && link == "https://a.b"));
    assert_eq!(b.color, None);
    let b = Button::location(1u8);
    assert!(matches!(b.action, KeyboardAction::Location { ref button_type, payload: 1 } if button_type == "location"));
    assert_eq!(b.color, None);
    let b = Button::vkpay((), "h");
    assert!(matches!(b.action, KeyboardAction::VkPay { ref button_type, ref hash, .. } if button_type == "vkpay" && hash == "h"));
    let b = Button::open_app(1, 2, (), "L", "x");
    assert!(matches!(b.action, KeyboardAction::OpenApp { ref button_type, app_id: 1, owner_id: 2, .. } if button_type == "open_app"));
    assert_eq!(b.color, None);
}

#[test]
fn callback_answers_name_their_type() {
    let s = ShowSnackbar::new("done");
    assert_eq!(s.event_type, "show_snackbar");
    assert_eq!(s.text, "done");
    let l = OpenLink::new("https://x.y");
    assert_eq!(l.event_type, "open_link");
    assert_eq!(l.link, "https://x.y");
    let a = OpenApp::new(5, -6, String::from("h"));
    assert_eq!(a.event_type, "open_app");
    assert_eq!((a.app_id, a.owner_id, a.hash.as_str()), (5, -6, "h"));
}

#[test]
fn event_answer_status_one_is_success() {
    assert!(matches!(EventAnswer(1).get_status(), Ok(1)));
    assert!(matches!(EventAnswer(0).get_status(), Err(Error::EventAnswerUnkownStatus { status: 0 })));
}

#[test]
fn error_codes_select_their_variant() {
    assert!(matches!(VkError::from_code(Some(6), String::from("m")), VkError::TooManyRequests(m) if m == "m"));
    assert!(matches!(VkError::from_code(Some(603), String::new()), VkError::AdCabinetError(_)));
    assert!(matches!(VkError::from_code(Some(12), String::new()), VkError::UnknownError(_)));
    assert!(matches!(VkError::from_code(None, String::from("x")), VkError::UnknownError(m) if m == "x"));
}

#[test]
fn error_objects_are_read_by_code_and_message() {
    let json: serde_json::Value =
        serde_json::from_str("{\"error_code\":5,\"error_msg\":\"bad token\"}").unwrap();
    assert!(matches!(VkError::from_vk_error_json(&json), VkError::UserAuthorizationFailed(m) if m == "bad token"));
}

#[test]
fn error_objects_without_fields_are_unknown_errors() {
    let json: serde_json::Value = serde_json::from_str("{}").unwrap();
    assert!(matches!(VkError::from_vk_error_json(&json), VkError::UnknownError(m) if m == safe_vk::NO_MESSAGE));
    let json: serde_json::Value = serde_json::from_str("{\"error_code\":\"6\"}").unwrap();
    assert!(matches!(VkError::from_vk_error_json(&json), VkError::UnknownError(_)));
}

#[test]
fn shapes_list_rows_then_columns() {
    let s = safe_vk::Shape::from_dims(3, 4);
    assert_eq!(s.dims(), &[3, 4]);
}

#[test]
fn a_code_without_message_carries_the_default_text() {
    let json: serde_json::Value = serde_json::from_str("{\"error_code\":6}").unwrap();
    assert!(matches!(VkError::from_vk_error_json(&json), VkError::TooManyRequests(m) if m == "No additional error message provided."));
}

#[test]
fn unknown_codes_keep_the_message() {
    let json: serde_json::Value =
        serde_json::from_str("{\"error_code\":999,\"error_msg\":\"odd\"}").unwrap();
    assert!(matches!(VkError::from_vk_error_json(&json), VkError::UnknownError(m) if m == "odd"));
    let json: serde_json::Value = serde_json::from_str("{\"error_msg\":7}").unwrap();
    assert!(matches!(VkError::from_vk_error_json(&json), VkError::UnknownError(m) if m == safe_vk::NO_MESSAGE));
}

#[test]
fn fields_choose_variant_and_message() {
    assert!(matches!(VkError::from_fields(Some(15), Some("no")), VkError::AccessDenied(m) if m == "no"));
    assert!(matches!(VkError::from_fields(Some(15), None), VkError::AccessDenied(m) if m == safe_vk::NO_MESSAGE));
    assert!(matches!(VkError::from_fields(None, Some("x")), VkError::UnknownError(m) if m == "x"));
}
