use oray_tools::error::{
    checked_body, is_token_expired_message, oray_xml_error, Error,
};

fn is_expired(desc: &str) -> bool {
    matches!(Error::from_message(desc.to_string()), Error::TokenExpired(_))
}

/// A `1010` that is part of some other identifier must not be mistaken for
/// the token-expired code.
#[test]
fn from_message_ignores_unrelated_1010_occurrences() {
    for desc in [
        "sn=101000000001 not found",
        "plug get failed (code=10100)",
        "code=10100",
        "code=10101: rate limited",
        "Oray API error 10100: device offline",
        "order 1010 rejected",
        "remote 101000000001 is offline",
        // Keys that merely *end* in `code`.
        r#"{"errorCode":1010}"#,
        "devicecode=1010",
    ] {
        assert!(
            matches!(Error::from_message(desc.to_string()), Error::Api(_)),
            "{desc} must stay an Api error"
        );
    }
}

#[test]
fn from_message_recognizes_token_expired_shapes() {
    for desc in [
        // literal message, any case
        "token_expired",
        "TOKEN_EXPIRED",
        "ToKeN_ExPiReD",
        "login failed: token_expired (code=1010)",
        // XML fragment and `oray_xml_error` rendering
        "<code>1010</code>",
        "<response><code>1010</code><message>whatever</message></response>",
        "Oray API error 1010: TOKEN_EXPIRED",
        "Oray API error 1010",
        // JSON forms
        r#"{"code":1010,"message":"expired"}"#,
        r#"{ "code": 1010 }"#,
        // query/inline form on a proper boundary
        "code=1010",
        "login failed (code=1010) ignored message",
        "code=1010, retry later",
    ] {
        assert!(is_expired(desc), "{desc} must be TokenExpired");
    }
}

#[test]
fn from_message_plain_error_stays_api() {
    assert!(matches!(
        Error::from_message("device not found".to_string()),
        Error::Api(_)
    ));
    assert!(matches!(
        Error::from_message("result != 0: rate limited".to_string()),
        Error::Api(_)
    ));
}

#[test]
fn messages_keep_their_text() {
    assert!(is_token_expired_message("x token_expired y"));
    assert!(!is_token_expired_message(""));
    // A letter that only lower-cases beyond ASCII is a boundary like any other.
    assert!(!is_token_expired_message("\u{c9}code=1010"));
    match Error::from_message("Token_Expired!".to_string()) {
        Error::TokenExpired(m) => assert_eq!(m, "Token_Expired!"),
        _ => panic!("not expired"),
    }
}

fn no_json() -> serde_json::Error {
    match serde_json::from_str::<serde_json::Value>("{") {
        Err(e) => e,
        Ok(_) => panic!("parsed"),
    }
}

/// `bad_body` must surface an XML token-expired document as `TokenExpired`
/// instead of a JSON parse failure.
#[test]
fn bad_body_recognizes_xml_token_expired() {
    let body = "<?xml version=\"1.0\" encoding=\"utf-8\"?><response><code>1010</code><message>TOKEN_EXPIRED</message></response>";
    assert!(matches!(
        Error::bad_body(body.to_string(), no_json()),
        Error::TokenExpired(_)
    ));
}

#[test]
fn token_expired_xml_is_recognized() {
    let xml = r#"<?xml version="1.0" encoding="utf-8"?>
<response><category>error</category><action>error</action><code>1010</code><message>TOKEN_EXPIRED</message><datas></datas></response>"#;
    let err = match serde_json::from_str::<serde_json::Value>(xml) {
        Err(e) => e,
        Ok(_) => panic!("parsed"),
    };
    let e = Error::bad_body(xml.to_string(), err);
    assert!(matches!(e, Error::TokenExpired(_)), "got {e:?}");
}

#[test]
fn bodies_that_are_no_xml_stay_bad() {
    match Error::bad_body("<html>".to_string(), no_json()) {
        Error::BadBody { body, .. } => assert_eq!(body, "<html>"),
        _ => panic!("not bad"),
    }
    let r: Result<u8, Error> = checked_body("<response></response>".to_string(), Err(no_json()));
    assert!(matches!(r, Err(Error::Api(m)) if m == "Oray API error (unparseable XML response)"));
    let r: Result<u8, Error> = checked_body("7".to_string(), Ok(7));
    assert!(matches!(r, Ok(7)));
}

#[test]
fn oray_xml_error_flat_document_format() {
    assert_eq!(
        oray_xml_error(
            "<response><code>1010</code><message>TOKEN_EXPIRED</message></response>"
        ),
        Some("Oray API error 1010: TOKEN_EXPIRED".to_string())
    );
    assert_eq!(
        oray_xml_error("\n  <?xml version=\"1.0\"?><response><code>42</code></response>"),
        Some("Oray API error 42".to_string())
    );
    // `<response >` root, message only, and unparseable-but-recognizable.
    assert_eq!(
        oray_xml_error("<response ><message>boom</message></response>"),
        Some("Oray API error: boom".to_string())
    );
    assert_eq!(
        oray_xml_error("<response></response>"),
        Some("Oray API error (unparseable XML response)".to_string())
    );
    assert_eq!(oray_xml_error("<html>404 not found</html>"), None);
    assert_eq!(oray_xml_error("{\"code\":1010}"), None);
}

#[test]
fn errors_say_what_happened() {
    let status = Error::HttpStatus { what: "login", status: 502, body: "down".to_string() };
    let text = status.message();
    assert!(text.contains("login") && text.contains("502") && text.contains("down"), "{text}");
    assert!(Error::Http("connection refused".to_string()).message().contains("connection refused"));
    assert_eq!(Error::Api("nope".to_string()).message(), "nope");
    assert!(Error::TokenExpired("late".to_string()).message().contains("late"));
    let bad = Error::bad_body("junk".to_string(), no_json()).message();
    assert!(bad.contains("junk"), "{bad}");
}
