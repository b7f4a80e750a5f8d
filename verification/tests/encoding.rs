use kratestack_api::json::escape_json;
use kratestack_api::json::message_response_json;
use kratestack_api::response::MessageResponse;
use kratestack_api::strutil::str_eq;
use kratestack_api::strutil::str_has_prefix;

#[test]
fn plain_text_is_its_own_escape() {
    assert_eq!(escape_json("Hello from Kratestack!"), "Hello from Kratestack!");
    assert_eq!(escape_json(""), "");
}

#[test]
fn quote_and_backslash_are_escaped() {
    assert_eq!(escape_json("a\"b\\c"), "a\\\"b\\\\c");
}

#[test]
fn named_control_characters_take_short_escapes() {
    assert_eq!(escape_json("\n\t\r\u{8}\u{c}"), "\\n\\t\\r\\b\\f");
}

#[test]
fn other_control_characters_take_unicode_escapes() {
    assert_eq!(escape_json("\u{0}\u{1}\u{1f}"), "\\u0000\\u0001\\u001f");
}

#[test]
fn non_ascii_text_is_kept_as_it_is() {
    assert_eq!(escape_json("h\u{e9}llo \u{2713}"), "h\u{e9}llo \u{2713}");
}

#[test]
fn response_serializes_to_one_field_object() {
    let r = MessageResponse { message: String::from("Hi") };
    assert_eq!(message_response_json(&r), "{\"message\":\"Hi\"}");
}

#[test]
fn hello_response_serializes_to_the_advertised_body() {
    let r = MessageResponse { message: String::from("Hello from Kratestack!") };
    assert_eq!(message_response_json(&r), "{\"message\":\"Hello from Kratestack!\"}");
}

#[test]
fn response_with_specials_is_escaped_in_place() {
    let r = MessageResponse { message: String::from("say \"hi\"\n") };
    assert_eq!(message_response_json(&r), "{\"message\":\"say \\\"hi\\\"\\n\"}");
}

#[test]
fn string_equality_by_characters() {
    assert!(str_eq("/api/hello", "/api/hello"));
    assert!(!str_eq("/api/hello", "/api/hellO"));
    assert!(!str_eq("/api/hello", "/api/hell"));
    assert!(str_eq("", ""));
}

#[test]
fn prefix_test_by_characters() {
    assert!(str_has_prefix("/swagger-ui/index.html", "/swagger-ui/"));
    assert!(str_has_prefix("/swagger-ui/", "/swagger-ui/"));
    assert!(!str_has_prefix("/swagger-ui", "/swagger-ui/"));
    assert!(!str_has_prefix("/swagger-uix", "/swagger-ui/"));
    assert!(str_has_prefix("anything", ""));
}
