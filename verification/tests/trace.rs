use oray_tools::error::Error;
use oray_tools::json::Json;
use oray_tools::trace::{
    api_headers, execute, expect_2xx, expect_json, finish, mask_authorization, mask_body,
    mask_str, mask_value, sensitive_key, untraced, Request, RequestLog, Traced, Transport,
};

#[test]
fn redact_authorization_header() {
    let log = RequestLog {
        method: "GET".into(),
        url: "https://api.example/x".into(),
        request_headers: vec![
            ("Accept".into(), "application/json".into()),
            ("Authorization".into(), "Bearer abcdef012345".into()),
        ],
        request_body: None,
        status: Some(200),
        response_body: String::new(),
    };
    let r = log.redacted();
    assert_eq!(r.request_headers[1].1, "Bearer abcdef***");
    assert_eq!(r.request_headers[0].1, "application/json");
}

#[test]
fn redact_nested_json_sensitive_keys() {
    let log = RequestLog {
        method: "POST".into(),
        url: "https://api.example/login".into(),
        request_headers: Vec::new(),
        request_body: Some(r#"{"account":"user","password":"d41d8cd98f00b204e9800998ecf8427e","extra":{"refresh_token":"rt123","note":"hi"}}"#.into()),
        status: Some(200),
        response_body: r#"{"access_token":"at789","refresh_token":"rt456","ok":true}"#.into(),
    };
    let r = log.redacted();
    let body: serde_json::Value =
        serde_json::from_str(r.request_body.as_deref().unwrap()).unwrap();
    assert_eq!(body["account"], "user");
    assert!(body["password"].as_str().unwrap().contains("***"));
    assert!(body["password"].as_str().unwrap().starts_with("d41d"));
    assert!(body["extra"]["refresh_token"].as_str().unwrap().ends_with("***"));
    assert_eq!(body["extra"]["note"], "hi");
    let resp: serde_json::Value = serde_json::from_str(&r.response_body).unwrap();
    assert!(resp["access_token"].as_str().unwrap().ends_with("***"));
    assert!(resp["refresh_token"].as_str().unwrap().ends_with("***"));
    assert_eq!(resp["ok"], true);
}

#[test]
fn redact_leaves_non_json_bodies_alone() {
    let log = RequestLog {
        method: "GET".into(),
        url: "https://api.example/x".into(),
        request_headers: Vec::new(),
        request_body: None,
        status: Some(200),
        response_body: "plain text body".into(),
    };
    assert_eq!(log.redacted().response_body, "plain text body");
}

#[test]
fn redacted_short_authorization_is_all_masked() {
    assert_eq!(mask_authorization("abc"), "abc***");
    assert_eq!(mask_authorization("Bearer ab"), "Bearer ab***");
    assert!(mask_authorization("Bearer abcdef012345").ends_with("***"));
}

#[test]
fn masks_show_a_few_characters() {
    assert_eq!(mask_str(""), "***");
    assert_eq!(mask_str("abcdef"), "abcd***");
    assert_eq!(mask_str("密码密码密码"), "密码密码***");
    assert_eq!(mask_authorization("Basic xyz"), "Basi***");
    assert!(sensitive_key("Refresh_TOKEN"));
    assert!(sensitive_key("password"));
    assert!(!sensitive_key("account"));
}

#[test]
fn masking_reaches_into_arrays_and_keeps_other_values() {
    let value = Json::parse(r#"[{"token":"secret-1"},{"token":5},["x"],null,1.5]"#).unwrap();
    let masked = mask_value(&value).to_value();
    assert_eq!(masked[0]["token"], "secr***");
    assert_eq!(masked[1]["token"], 5);
    assert_eq!(masked[2][0], "x");
    assert!(masked[3].is_null());
    assert_eq!(masked[4], 1.5);
    assert_eq!(mask_body("not json"), "not json");
    assert_eq!(mask_body(r#"{"token":"abcdefgh"}"#), "{\n  \"token\": \"abcd***\"\n}");
}

fn request() -> Request {
    Request {
        method: "POST",
        url: "https://api.example/x".to_string(),
        headers: api_headers("TOK"),
        body: Some("{}".to_string()),
    }
}

#[test]
fn requests_carry_the_token() {
    let headers = api_headers("TOK");
    assert!(headers.iter().any(|h| h.0 == "Authorization" && h.1 == "Bearer TOK"));
    assert!(headers.iter().any(|h| h.0 == "User-Agent"));
}

#[test]
fn a_response_is_recorded() {
    match execute(request(), Transport::Response(201, "body".to_string())) {
        Ok(ex) => {
            assert_eq!(ex.status, 201);
            assert_eq!(ex.text, "body");
            assert_eq!(ex.log.status, Some(201));
            assert_eq!(ex.log.method, "POST");
            assert_eq!(ex.log.response_body, "body");
            assert_eq!(ex.log.request_body.as_deref(), Some("{}"));
            let (calls, text) = expect_2xx(ex, "ask").unwrap();
            assert_eq!(calls.len(), 1);
            assert_eq!(text, "body");
        }
        Err(_) => panic!("failed"),
    }
}

#[test]
fn a_failed_transport_is_recorded_too() {
    match execute(request(), Transport::NoResponse("refused".to_string())) {
        Err(e) => {
            assert!(matches!(&e.error, Error::Http(m) if m == "refused"));
            assert_eq!(e.calls.len(), 1);
            assert_eq!(e.calls[0].status, None);
            assert!(!e.is_token_expired());
            assert_eq!(e.message(), "network error: refused");
        }
        Ok(_) => panic!("succeeded"),
    }
    match execute(request(), Transport::BrokenBody(200, "reset".to_string())) {
        Err(e) => assert_eq!(e.calls[0].status, Some(200)),
        Ok(_) => panic!("succeeded"),
    }
}

#[test]
fn statuses_beside_2xx_fail_with_their_body() {
    let ex = match execute(request(), Transport::Response(404, "gone".to_string())) {
        Ok(ex) => ex,
        Err(_) => panic!("failed"),
    };
    match expect_2xx(ex, "ask") {
        Err(e) => {
            assert_eq!(e.message(), "ask failed (HTTP 404): gone");
            assert_eq!(e.calls.len(), 1);
        }
        Ok(_) => panic!("accepted"),
    }
}

#[test]
fn parsed_bodies_come_with_their_exchange() {
    let ex = match execute(request(), Transport::Response(200, "5".to_string())) {
        Ok(ex) => ex,
        Err(_) => panic!("failed"),
    };
    let parsed: Result<u32, serde_json::Error> = serde_json::from_str("5");
    match expect_json(ex, "ask", parsed) {
        Ok(mut done) => {
            assert_eq!(*done, 5);
            *done += 1;
            assert_eq!(done.data, 6);
            assert_eq!(done.calls.len(), 1);
        }
        Err(_) => panic!("failed"),
    }
    let r = finish(Vec::new(), Ok::<u8, Error>(3));
    assert!(matches!(r, Ok(Traced { data: 3, .. })));
    let e = untraced(Error::TokenExpired("late".to_string()));
    assert!(e.is_token_expired());
    assert!(e.calls.is_empty());
    assert!(matches!(&*e, Error::TokenExpired(_)));
}
