use oray_tools::error::Error;
use oray_tools::json::{from_value, json_str, put, Json};
use oray_tools::output::{display_body, emit_json, request_log_lines, traced, Output};
use oray_tools::trace::{RequestLog, Traced, TracedError, TracedResult};

fn call() -> RequestLog {
    RequestLog {
        method: "POST".to_string(),
        url: "https://api.example/login".to_string(),
        request_headers: vec![("Authorization".to_string(), "Bearer abcdef012345".to_string())],
        request_body: Some(r#"{"password":"secret"}"#.to_string()),
        status: Some(200),
        response_body: " done ".to_string(),
    }
}

#[test]
fn traces_are_shown_on_request_and_masked() {
    let mut out = Output { verbose: false, raw_trace: false };
    assert!(out.emit_traces(&vec![call()]).is_empty());
    out.set_verbose(true);
    assert!(out.verbose() && !out.raw_trace());
    assert_eq!(
        out.emit_traces(&vec![call()]),
        vec![
            "[DEBUG] POST https://api.example/login",
            "[DEBUG] Authorization: Bearer abcdef***",
            "[DEBUG] Request body: {\n  \"password\": \"secr***\"\n}",
            "[DEBUG] Response: 200",
            "[DEBUG] Body: done",
        ]
    );
    out.set_raw_trace(true);
    let raw = out.emit_traces(&vec![call()]);
    assert_eq!(raw[1], "[DEBUG] Authorization: Bearer abcdef012345");
    assert_eq!(raw[2], "[DEBUG] Request body: {\"password\":\"secret\"}");
}

#[test]
fn exchanges_without_a_response_say_so() {
    let mut log = call();
    log.status = None;
    log.response_body = String::new();
    log.request_body = None;
    let lines = request_log_lines(&log);
    assert_eq!(lines.last().unwrap(), "[DEBUG] Response: <no response>");
}

#[test]
fn long_bodies_are_cut() {
    assert_eq!(display_body("  x \n"), "x");
    let exact = "a".repeat(4096);
    assert_eq!(display_body(&exact), exact);
    let long = "a".repeat(5000);
    assert_eq!(display_body(&long), format!("{exact}…"));
    // Byte 4096 falls inside a character, which is left out.
    let wide = "中".repeat(2000);
    assert_eq!(display_body(&wide), format!("{}…", "中".repeat(1365)));
    assert_eq!(display_body(&"中".repeat(1365)), "中".repeat(1365));
}

#[test]
fn labelled_results() {
    let done: TracedResult<u8> = Ok(Traced { data: 5, calls: vec![call()] });
    let (r, calls) = traced("login", done);
    assert_eq!(r, Ok(5));
    assert_eq!(calls.len(), 1);
    let failed: TracedResult<u8> =
        Err(TracedError { error: Error::Api("no".to_string()), calls: Vec::new() });
    let (r, _) = traced("login", failed);
    assert_eq!(r, Err("login: no".to_string()));
}

#[test]
fn documents_are_printed_on_request() {
    let mut fields: Vec<(String, Json)> = Vec::new();
    put(&mut fields, "b", Json::Array(vec![Json::Null, Json::Int(-1)]));
    put(&mut fields, "a", json_str("x"));
    put(&mut fields, "a", Json::Bool(true));
    let doc = Json::Object(fields);
    assert_eq!(emit_json(false, &doc), None);
    assert_eq!(
        emit_json(true, &doc).unwrap(),
        "{\n  \"a\": true,\n  \"b\": [\n    null,\n    -1\n  ]\n}"
    );
    assert_eq!(doc.compact(), r#"{"a":true,"b":[null,-1]}"#);
}

#[test]
fn documents_survive_the_way_through_text() {
    let text = r#"{"a":[1,-2,18446744073709551615,1.5,"\u0001中",null,true,{}]}"#;
    let doc = Json::parse(text).unwrap();
    let again = Json::parse(&doc.compact()).unwrap();
    assert_eq!(doc.to_value(), again.to_value());
    assert_eq!(doc.to_value(), serde_json::from_str::<serde_json::Value>(text).unwrap());
    assert_eq!(from_value(doc.to_value()).compact(), doc.compact());
    assert!(Json::parse("{").is_none());
    assert!(Json::parse_bytes(&b"\xff".to_vec()).is_none());
    let bytes = Json::parse_bytes(&b"[7]".to_vec()).unwrap();
    assert!(matches!(&bytes, Json::Array(items) if items[0].as_i64() == Some(7)));
    assert_eq!(doc.get("a").and_then(|v| v.as_text()), None);
    assert!(doc.get("b").is_none());
}
