use todo_client::command::{Command, Method};
use todo_client::digits::{fmt_i64, fmt_u64};
use todo_client::json_text::{create_body, escape_json_string, update_body};
use todo_client::request::build_request;
use todo_client::url::BaseUrl;

fn base(scheme: &str, authority: &str) -> BaseUrl {
    match BaseUrl::new(Some(scheme.to_string()), Some(authority.to_string())) {
        Ok(b) => b,
        Err(_) => panic!("valid base rejected"),
    }
}

#[test]
fn list_is_get_without_body() {
    let r = build_request(&base("http", "example.com"), &Command::List);
    assert_eq!(r.url, "http://example.com/v1/todos");
    assert_eq!(r.method, Method::Get);
    assert!(r.body.is_none());
}

#[test]
fn read_is_get_without_body() {
    let r = build_request(&base("http", "example.com"), &Command::Read { id: 42 });
    assert_eq!(r.url, "http://example.com/v1/todos/42");
    assert_eq!(r.method, Method::Get);
    assert!(r.body.is_none());
}

#[test]
fn create_sends_exact_json_body() {
    let r = build_request(
        &base("http", "example.com"),
        &Command::Create { body: "buy milk".to_string() },
    );
    assert_eq!(r.url, "http://example.com/v1/todos");
    assert_eq!(r.method, Method::Post);
    assert_eq!(r.body.as_deref(), Some("{\"body\":\"buy milk\"}"));
}

#[test]
fn update_sends_exact_json_body() {
    let r = build_request(
        &base("http", "example.com"),
        &Command::Update { id: 7, body: "x".to_string(), completed: true },
    );
    assert_eq!(r.url, "http://example.com/v1/todos/7");
    assert_eq!(r.method, Method::Put);
    assert_eq!(r.body.as_deref(), Some("{\"body\":\"x\",\"completed\":true}"));
}

#[test]
fn update_not_completed() {
    let r = build_request(
        &base("http", "example.com"),
        &Command::Update { id: 7, body: "x".to_string(), completed: false },
    );
    assert_eq!(r.body.as_deref(), Some("{\"body\":\"x\",\"completed\":false}"));
}

#[test]
fn delete_without_body() {
    let r = build_request(&base("http", "example.com"), &Command::Delete { id: 3 });
    assert_eq!(r.url, "http://example.com/v1/todos/3");
    assert_eq!(r.method, Method::Delete);
    assert!(r.body.is_none());
}

#[test]
fn base_scheme_and_authority_are_kept() {
    let r = build_request(&base("https", "example.org:8443"), &Command::Read { id: 1 });
    assert_eq!(r.url, "https://example.org:8443/v1/todos/1");
}

#[test]
fn negative_id_in_path() {
    let r = build_request(&base("http", "h"), &Command::Read { id: -5 });
    assert_eq!(r.url, "http://h/v1/todos/-5");
}

#[test]
fn extreme_ids_in_paths() {
    let r = build_request(&base("http", "h"), &Command::Delete { id: i64::MIN });
    assert_eq!(r.url, "http://h/v1/todos/-9223372036854775808");
    let r = build_request(&base("http", "h"), &Command::Read { id: i64::MAX });
    assert_eq!(r.url, "http://h/v1/todos/9223372036854775807");
}

#[test]
fn decimal_formatting_edges() {
    assert_eq!(fmt_u64(0), "0");
    assert_eq!(fmt_u64(10), "10");
    assert_eq!(fmt_u64(u64::MAX), "18446744073709551615");
    assert_eq!(fmt_i64(0), "0");
    assert_eq!(fmt_i64(i64::MAX), "9223372036854775807");
    assert_eq!(fmt_i64(i64::MIN), "-9223372036854775808");
}

#[test]
fn method_names() {
    assert_eq!(Method::Get.name(), "GET");
    assert_eq!(Method::Post.name(), "POST");
    assert_eq!(Method::Put.name(), "PUT");
    assert_eq!(Method::Delete.name(), "DELETE");
}

fn serde_create_body(text: &str) -> String {
    let mut m = serde_json::Map::new();
    m.insert("body".to_string(), serde_json::Value::String(text.to_string()));
    serde_json::Value::Object(m).to_string()
}

fn serde_update_body(text: &str, completed: bool) -> String {
    let mut m = serde_json::Map::new();
    m.insert("body".to_string(), serde_json::Value::String(text.to_string()));
    m.insert("completed".to_string(), serde_json::Value::Bool(completed));
    serde_json::Value::Object(m).to_string()
}

#[test]
fn escaping_agrees_with_serde_json() {
    let tricky = [
        "",
        "plain",
        "a\"b\\c",
        "line\nbreak\r\ttab",
        "ctrl \u{1} \u{b} \u{1f} end",
        "backspace\u{8}formfeed\u{c}",
        "h\u{e9}llo \u{2603} \u{1f600}",
    ];
    for t in tricky {
        assert_eq!(create_body(t), serde_create_body(t));
        assert_eq!(update_body(t, true), serde_update_body(t, true));
        assert_eq!(update_body(t, false), serde_update_body(t, false));
    }
}

#[test]
fn escape_exact_values() {
    assert_eq!(escape_json_string("a\"b"), "a\\\"b");
    assert_eq!(escape_json_string("\\"), "\\\\");
    assert_eq!(escape_json_string("\n"), "\\n");
    assert_eq!(escape_json_string("\u{1f}"), "\\u001f");
    assert_eq!(escape_json_string("\u{b}"), "\\u000b");
}
