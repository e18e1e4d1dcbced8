use safe_vk::{
    encode_query, method_url, negotiation_query, EditMessage, Error, LongPollSession,
    SendMessage, SendMessageEventAnswer, Shape,
};

fn text(bytes: &[u8]) -> &str {
    std::str::from_utf8(bytes).unwrap()
}

#[test]
fn a_new_query_names_its_peer() {
    assert_eq!(text(SendMessage::new(Some(42)).query()), "peer_id=42&");
    assert_eq!(text(SendMessage::new(None).query()), "");
}

#[test]
fn peer_id_replaces_the_previous_peer() {
    let m = SendMessage::new(Some(42)).message("hi").peer_id(-7);
    assert_eq!(text(m.query()), "message=hi&peer_id=-7&");
}

#[test]
fn peer_ids_are_joined_with_commas() {
    let m = SendMessage::new(Some(1)).peer_ids(&[10, -20, 30]);
    assert_eq!(text(m.query()), "peer_ids=10,-20,30&");
    let m = SendMessage::new(None).peer_ids(&[]);
    assert_eq!(text(m.query()), "peer_ids=&");
}

#[test]
fn attachments_name_type_owner_and_media() {
    let m = SendMessage::new(None).attachment("photo", -123, 456);
    assert_eq!(text(m.query()), "attachment=photo-123_456&");
    let e = EditMessage::new(Some(3)).attachment("doc", 1, 2);
    assert_eq!(text(e.query()), "peer_id=3&attachment=doc1_2&");
}

#[test]
fn edit_message_replaces_its_peer() {
    let e = EditMessage::new(Some(3)).message_id(9).peer_id(4);
    assert_eq!(text(e.query()), "message_id=9&peer_id=4&");
}

#[test]
fn event_answers_carry_their_fields() {
    let a = SendMessageEventAnswer::new(Some(2))
        .event_id("abc")
        .user_id(77)
        .peer_id(5)
        .event_data("{\"type\":\"show_snackbar\"}");
    assert_eq!(
        text(a.query()),
        "event_id=abc&user_id=77&peer_id=5&event_data={\"type\":\"show_snackbar\"}&"
    );
}

#[test]
fn extreme_integers_are_written_in_full() {
    let m = SendMessage::new(Some(i64::MIN)).random_id(i32::MAX);
    assert_eq!(text(m.query()), "peer_id=-9223372036854775808&random_id=2147483647&");
}

#[test]
fn keyboards_within_bounds_are_attached() {
    let m = SendMessage::new(None).keyboard(Shape::from_dims(10, 5), "[]");
    assert_eq!(text(m.ok().unwrap().query()), "keyboard=[]&");
}

#[test]
fn rows_that_are_too_wide_are_refused() {
    match SendMessage::new(None).keyboard(Shape::from_dims(2, 6), "[]") {
        Err(Error::DimOutOfRange { shape, dim }) => {
            assert_eq!(dim, 6);
            assert_eq!(shape.dims(), &[2, 6]);
        }
        _ => panic!("expected a refusal"),
    }
}

#[test]
fn keyboards_with_too_many_rows_are_refused() {
    match SendMessage::new(None).keyboard(Shape::from_dims(11, 1), "[]") {
        Err(Error::DimOutOfRange { dim, .. }) => assert_eq!(dim, 11),
        _ => panic!("expected a refusal"),
    }
}

#[test]
fn queries_are_encoded_but_for_separators() {
    assert_eq!(encode_query(b"message=hello world!&x=a=b&"), "message=hello%20world%21&x=a=b&");
    assert_eq!(encode_query("text=привет&".as_bytes()), "text=%D0%BF%D1%80%D0%B8%D0%B2%D0%B5%D1%82&");
    assert_eq!(encode_query(b"a-b_c.d~e"), "a-b_c.d~e");
    assert_eq!(encode_query(b""), "");
}

#[test]
fn method_urls_end_with_the_version() {
    let url = method_url("messages.send", b"peer_id=1&message=a b&");
    assert_eq!(url, "https://api.vk.com/method/messages.send?peer_id=1&message=a%20b&v=5.199");
}

#[test]
fn negotiation_names_the_community() {
    assert_eq!(text(&negotiation_query(18446744073709551615)), "group_id=18446744073709551615&");
}

#[test]
fn poll_urls_carry_key_cursor_and_wait() {
    let s = LongPollSession {
        key: String::from("k/1"),
        server: String::from("https://lp.example/wh1"),
        ts: String::from("105"),
    };
    assert_eq!(s.poll_url(), "https://lp.example/wh1?act=check&key=k%2F1&ts=105&wait=25");
}

#[test]
fn photo_uploads_name_the_extension() {
    assert_eq!(safe_vk::image_mime_type("cat.png"), "image/png");
    assert_eq!(safe_vk::image_mime_type("archive.tar.gz"), "image/gz");
    assert_eq!(safe_vk::image_mime_type("noext"), "image/");
    assert_eq!(safe_vk::image_mime_type("trailing."), "image/");
}
