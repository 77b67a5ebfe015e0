use mafia::action::ActionMessage;
use mafia::json::{action_to_json, parse_action};

#[test]
fn canonical_frame_parses() {
    let m = parse_action("{\"type\":\"Message\",\"text\":\"hi\"}").unwrap();
    assert_eq!(m.text, "hi");
    let empty = parse_action("{\"type\":\"Message\",\"text\":\"\"}").unwrap();
    assert_eq!(empty.text, "");
}

#[test]
fn escaped_content_is_decoded() {
    let m = parse_action("{\"type\":\"Message\",\"text\":\"a\\\"b\\\\c\\nd\\te\\/f\"}").unwrap();
    assert_eq!(m.text, "a\"b\\c\nd\te/f");
    let ctl = parse_action("{\"type\":\"Message\",\"text\":\"\\b\\f\\r\"}").unwrap();
    assert_eq!(ctl.text, "\u{8}\u{c}\r");
}

#[test]
fn malformed_frames_are_rejected() {
    assert!(parse_action("").is_none());
    assert!(parse_action("{\"type\":\"Message\"}").is_none());
    assert!(parse_action("{\"text\":\"hi\",\"type\":\"Message\"}").is_none());
    assert!(parse_action("{\"type\":\"Ping\",\"text\":\"hi\"}").is_none());
    assert!(parse_action("{\"type\":\"Message\",\"text\":\"hi\"} ").is_none());
    assert!(parse_action("{\"type\":\"Message\",\"text\":\"hi\"").is_none());
    assert!(parse_action("{\"type\":\"Message\",\"text\":\"hi}").is_none());
    assert!(parse_action("{\"type\":\"Message\",\"text\":\"h\\xi\"}").is_none());
    assert!(parse_action("{\"type\":\"Message\",\"text\":\"h\\u0041\"}").is_none());
    assert!(parse_action("{\"type\":\"Message\",\"text\":\"h\ni\"}").is_none());
}

#[test]
fn frames_encode_canonically() {
    let m = ActionMessage { text: "hi there".to_string() };
    assert_eq!(action_to_json(&m), "{\"type\":\"Message\",\"text\":\"hi there\"}");
    let tricky = ActionMessage { text: "a\"b\\c\nd".to_string() };
    assert_eq!(
        action_to_json(&tricky),
        "{\"type\":\"Message\",\"text\":\"a\\\"b\\\\c\\nd\"}"
    );
}

#[test]
fn encoded_frames_parse_back_to_their_text() {
    for text in ["", "hi", "a\"b\\c", "tabs\tand\nlines\r", "unicode \u{e9}\u{4e16}\u{1f600}"] {
        let m = ActionMessage { text: text.to_string() };
        let parsed = parse_action(&action_to_json(&m)).unwrap();
        assert_eq!(parsed.text, text);
    }
}
