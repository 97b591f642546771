use hello_service::handlers::{health, hello, HealthResponse, HelloResponse};
use hello_service::http::respond;
use hello_service::query::HelloQuery;

fn greeting(name: &str) -> String {
    hello(HelloQuery { name: name.to_string() }).to_json()
}

fn object(key: &str, value: &str) -> String {
    let mut members = serde_json::Map::new();
    members.insert(key.to_string(), serde_json::Value::String(value.to_string()));
    serde_json::to_string(&serde_json::Value::Object(members)).unwrap()
}

fn hello_member(body: &str) -> String {
    let parsed: serde_json::Value = serde_json::from_str(body).unwrap();
    let members = parsed.as_object().unwrap();
    assert_eq!(members.len(), 1);
    members.get("hello").unwrap().as_str().unwrap().to_string()
}

fn samples() -> Vec<String> {
    let mut all: Vec<String> = vec![
        "".to_string(),
        "world".to_string(),
        "\"".to_string(),
        "\\".to_string(),
        "\\\"".to_string(),
        "\\u0041".to_string(),
        "\\n".to_string(),
        "a\"b\\c/d".to_string(),
        "line\nbreak\r\n\ttab".to_string(),
        "\u{0}\u{1}\u{1f}\u{7f}\u{80}\u{9f}".to_string(),
        "comté €".to_string(),
        "日本語".to_string(),
        "\u{1F600}\u{10FFFF}\u{FFFF}\u{D7FF}\u{E000}".to_string(),
        "{\"hello\":\"world\"}".to_string(),
        "</script>".to_string(),
        "\u{2028}\u{2029}".to_string(),
    ];
    for code in 0u32..0x100 {
        all.push(char::from_u32(code).unwrap().to_string());
    }
    all.push((0u32..0x80).map(|c| char::from_u32(c).unwrap()).collect());
    all
}

#[test]
fn hello_copies_the_name() {
    let response = hello(HelloQuery { name: "world".to_string() });
    assert_eq!(response.hello, "world");
    let response = hello(HelloQuery { name: "".to_string() });
    assert_eq!(response.hello, "");
}

#[test]
fn health_reports_ok() {
    assert_eq!(health().status, "OK");
}

#[test]
fn hello_body_exactly() {
    assert_eq!(greeting("world"), "{\"hello\":\"world\"}");
    assert_eq!(greeting(""), "{\"hello\":\"\"}");
    assert_eq!(greeting("a\"b"), "{\"hello\":\"a\\\"b\"}");
    assert_eq!(greeting("a\\b"), "{\"hello\":\"a\\\\b\"}");
    assert_eq!(greeting("a/b"), "{\"hello\":\"a/b\"}");
    assert_eq!(greeting("é"), "{\"hello\":\"é\"}");
    assert_eq!(greeting("\u{7f}"), "{\"hello\":\"\u{7f}\"}");
}

#[test]
fn control_characters_are_escaped() {
    assert_eq!(greeting("\u{8}"), "{\"hello\":\"\\b\"}");
    assert_eq!(greeting("\t"), "{\"hello\":\"\\t\"}");
    assert_eq!(greeting("\n"), "{\"hello\":\"\\n\"}");
    assert_eq!(greeting("\u{c}"), "{\"hello\":\"\\f\"}");
    assert_eq!(greeting("\r"), "{\"hello\":\"\\r\"}");
    assert_eq!(greeting("\u{0}"), "{\"hello\":\"\\u0000\"}");
    assert_eq!(greeting("\u{b}"), "{\"hello\":\"\\u000b\"}");
    assert_eq!(greeting("\u{1a}"), "{\"hello\":\"\\u001a\"}");
    assert_eq!(greeting("\u{1f}"), "{\"hello\":\"\\u001f\"}");
    assert_eq!(greeting(" "), "{\"hello\":\" \"}");
}

#[test]
fn health_body_exactly() {
    assert_eq!(health().to_json(), "{\"status\":\"OK\"}");
    assert_eq!(HealthResponse { status: "a\"b".to_string() }.to_json(), "{\"status\":\"a\\\"b\"}");
}

#[test]
fn bodies_are_what_a_json_writer_writes() {
    for name in samples() {
        assert_eq!(greeting(&name), object("hello", &name), "{name:?}");
        assert_eq!(
            HealthResponse { status: name.clone() }.to_json(),
            object("status", &name),
            "{name:?}"
        );
    }
}

#[test]
fn a_json_reader_reads_the_name_back() {
    for name in samples() {
        let body = HelloResponse { hello: name.clone() }.to_json();
        assert_eq!(hello_member(&body), name, "{name:?}");
    }
}

#[test]
fn the_name_survives_the_whole_way() {
    for name in samples() {
        let encoded: String = form_urlencoded::byte_serialize(name.as_bytes()).collect();
        let reply = respond("GET", "/hello", &format!("name={encoded}"));
        assert_eq!(reply.status, 200, "{name:?}");
        assert_eq!(hello_member(&reply.body), name, "{name:?}");
    }
}
