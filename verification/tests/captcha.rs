use oray_tools::captcha::{
    captcha_token, delivered, escape, find_head_end, parse_head, replace_all, respond, route,
    Chunk, Progress, Reading, Request, Routed, MAX_BODY, MAX_HEAD,
};
use oray_tools::json::Json;
use oray_tools::mobile::{check_mobile, mask_mobile};

/// Origin the loopback page is served from in these tests.
const LOCAL_ORIGIN: &str = "http://127.0.0.1:42424";

fn request(method: &str, path: &str, body: &[u8]) -> Request {
    Request {
        method: method.to_string(),
        path: path.to_string(),
        body: body.to_vec(),
        origin: None,
    }
}

fn request_with_origin(method: &str, path: &str, body: &[u8], origin: &str) -> Request {
    Request {
        origin: Some(origin.to_string()),
        ..request(method, path, body)
    }
}

/// The answer to a request, with the token that it delivered to a waiting
/// receiver.
fn routed(req: &Request, mobile: &str) -> (u16, &'static str, String, Option<String>) {
    match route(req, mobile, LOCAL_ORIGIN) {
        Routed::Respond(status, content_type, body) => (status, content_type, body, None),
        Routed::Forward(token) => {
            let (status, content_type, body) = delivered(true);
            (status, content_type, body, Some(token))
        }
    }
}

#[test]
fn page_carries_the_client_scene() {
    let (status, content_type, body, token) =
        routed(&request("GET", "/", b""), "123****8901");
    assert_eq!(status, 200);
    assert!(content_type.starts_with("text/html"));
    assert!(body.contains("1sdsal45"), "Aliyun scene id missing");
    assert!(body.contains("16ck57"), "Aliyun prefix missing");
    assert!(body.contains("123****8901"));
    assert!(!body.contains("{{MOBILE}}"));
    assert!(token.is_none(), "GET must not produce a token");
}

#[test]
fn token_post_is_forwarded() {
    let body = br#"{"captchaVerifyParam":"TOKEN123","raw":"x"}"#;
    let (status, _, _, token) = routed(&request("POST", "/token", body), "123****8901");
    assert_eq!(status, 200);
    assert_eq!(token.unwrap(), "TOKEN123");
}

#[test]
fn token_post_without_param_falls_back_to_raw() {
    let body = br#"{"raw":"RAWTOKEN"}"#;
    let (status, _, _, token) = routed(&request("POST", "/token", body), "123****8901");
    assert_eq!(status, 200);
    assert_eq!(token.unwrap(), "RAWTOKEN");
}

#[test]
fn empty_token_is_rejected() {
    let (status, _, _, token) = routed(&request("POST", "/token", b"{}"), "123****8901");
    assert_eq!(status, 400);
    assert!(token.is_none());
}

#[test]
fn unknown_paths_404() {
    let (status, _, _, _) = routed(&request("GET", "/favicon.ico", b""), "x");
    assert_eq!(status, 404);
}

#[test]
fn token_post_from_another_origin_is_forbidden() {
    let body = br#"{"captchaVerifyParam":"HIJACKED"}"#;
    let req = request_with_origin("POST", "/token", body, "http://evil.example");
    let (status, _, text, token) = routed(&req, "123****8901");
    assert_eq!(status, 403);
    assert_eq!(text, "forbidden origin");
    assert!(token.is_none(), "a cross-origin post must not deliver a token");
}

#[test]
fn token_post_from_the_local_origin_is_allowed() {
    let body = br#"{"captchaVerifyParam":"TOKEN123"}"#;
    let req = request_with_origin("POST", "/token", body, LOCAL_ORIGIN);
    let (status, _, _, token) = routed(&req, "123****8901");
    assert_eq!(status, 200);
    assert_eq!(token.unwrap(), "TOKEN123");
}

#[test]
fn page_get_is_not_origin_checked() {
    // The page itself is loaded without an Origin header and must stay
    // reachable regardless — only POST /token is origin-gated.
    let req = request_with_origin("GET", "/", b"", "http://evil.example");
    let (status, _, _, token) = routed(&req, "123****8901");
    assert_eq!(status, 200);
    assert!(token.is_none(), "GET must not produce a token");
}

#[test]
fn late_tokens_are_gone() {
    assert_eq!(delivered(false).0, 410);
    assert_eq!(delivered(false).2, "already received");
    assert_eq!(delivered(true).2, "ok");
}

#[test]
fn tokens_are_texts_that_hold_something() {
    let token = |raw: &str| captcha_token(&Json::parse(raw).unwrap());
    assert_eq!(token(r#"{"captchaVerifyParam":"","raw":"r"}"#), Some("r".to_string()));
    assert_eq!(token(r#"{"captchaVerifyParam":5,"raw":""}"#), None);
    assert_eq!(token(r#"["x"]"#), None);
    // A body that is no JSON holds none.
    let (status, _, text, _) = routed(&request("POST", "/token", b"\xff\xfe"), "x");
    assert_eq!((status, text.as_str()), (400, "missing captcha"));
}

/// Reads a request that arrives in these pieces.
fn read(pieces: &[&[u8]]) -> Option<Request> {
    let mut reading = Reading::start();
    for piece in pieces {
        match reading.read_request(Chunk::Bytes(piece.to_vec())) {
            Progress::More(next) => reading = next,
            Progress::Complete(req) => return Some(req),
            _ => return None,
        }
    }
    match reading.read_request(Chunk::Ended) {
        Progress::Complete(req) => Some(req),
        _ => None,
    }
}

#[test]
fn decodes_a_complete_request() {
    let raw = b"POST /token HTTP/1.1\r\nHost: 127.0.0.1\r\nContent-Length: 7\r\n\r\n{\"a\":1}";
    let req = read(&[&raw[..]]).expect("request decoded");
    assert_eq!(req.method, "POST");
    assert_eq!(req.path, "/token");
    assert_eq!(req.body, b"{\"a\":1}");
    assert_eq!(req.origin, None, "no Origin header means no origin");
}

#[test]
fn decodes_the_origin_header() {
    let raw = "POST /token HTTP/1.1\r\nHost: 127.0.0.1\r\nOrigin: http://127.0.0.1:54321\r\nContent-Length: 7\r\n\r\n{\"a\":1}";
    let req = read(&[raw.as_bytes()]).expect("request decoded");
    assert_eq!(req.origin.as_deref(), Some("http://127.0.0.1:54321"));
    assert_eq!(req.body, b"{\"a\":1}");
}

#[test]
fn pieces_of_a_request_make_no_difference() {
    let raw = b"POST /token HTTP/1.1\r\nOrigin: o\r\nContent-Length: 5\r\n\r\nhello and more";
    for cut in 0..raw.len() {
        let req = read(&[&raw[..cut], &raw[cut..]]);
        // An empty piece is how a peer hangs up.
        if cut > 0 {
            let req = req.expect("request decoded");
            assert_eq!(req.body, b"hello", "cut at {cut}");
            assert_eq!(req.path, "/token");
        }
    }
}

#[test]
fn requests_that_end_early() {
    assert!(read(&[b"GET / HTTP/1.1\r\n"]).is_none());
    let short = read(&[b"POST / HTTP/1.1\r\nContent-Length: 9\r\n\r\nabc"]).unwrap();
    assert_eq!(short.body, b"abc");
    let start = Reading::start();
    assert!(matches!(start.read_request(Chunk::Idle), Progress::Nothing));
    let start = Reading::start();
    assert!(matches!(start.read_request(Chunk::Reset), Progress::Nothing));
    let start = Reading::start();
    assert!(matches!(start.read_request(Chunk::Failed), Progress::Broken));
}

#[test]
fn heads_and_bodies_are_capped() {
    let start = Reading::start();
    let long = vec![b'x'; MAX_HEAD + 1];
    assert!(matches!(start.read_request(Chunk::Bytes(long)), Progress::TooLarge));
    let head = parse_head("POST / HTTP/1.1\r\nContent-Length: 99999999\r\n\r\n");
    assert_eq!(head.content_length, MAX_BODY);
    let head = parse_head("POST / HTTP/1.1\r\ncontent-LENGTH: x\r\nORIGIN: \r\n\r\n");
    assert_eq!(head.content_length, 0);
    assert_eq!(head.origin, None);
    let head = parse_head("");
    assert_eq!((head.method.as_str(), head.path.as_str()), ("", ""));
}

#[test]
fn heads_end_at_the_first_empty_line() {
    assert_eq!(find_head_end(&b"a\r\n\r\nb\r\n\r\n".to_vec()), Some(5));
    assert_eq!(find_head_end(&b"a\r\n\r".to_vec()), None);
    assert_eq!(find_head_end(&Vec::new()), None);
}

#[test]
fn respond_labels_403_forbidden() {
    let out = respond(403, "text/plain; charset=utf-8", "forbidden origin");
    assert!(
        out.starts_with("HTTP/1.1 403 Forbidden\r\n"),
        "unexpected response head: {out}"
    );
    assert!(out.ends_with("forbidden origin"), "unexpected body: {out}");
}

#[test]
fn responses_count_bytes() {
    let out = respond(200, "text/plain; charset=utf-8", "备注");
    assert_eq!(
        out,
        "HTTP/1.1 200 OK\r\nContent-Type: text/plain; charset=utf-8\r\nContent-Length: 6\r\nConnection: close\r\n\r\n备注"
    );
    for (status, reason) in [(400u16, "Bad Request"), (404, "Not Found"), (410, "Gone"), (500, "Error")] {
        assert!(respond(status, "x", "").starts_with(&format!("HTTP/1.1 {status} {reason}\r\n")));
    }
}

/// From the bytes of a request to those of its response: a post is gated on
/// exactly the origin of the page.
#[test]
fn serve_gates_posts_on_the_local_origin() {
    let origin = "http://127.0.0.1:50505";
    let mut delivered_tokens: Vec<String> = Vec::new();
    let mut post = |with_origin: &str| -> String {
        let body = r#"{"captchaVerifyParam":"TOKEN123"}"#;
        let raw = format!(
            "POST /token HTTP/1.1\r\nHost: 127.0.0.1\r\nOrigin: {with_origin}\r\n\
             Content-Length: {}\r\n\r\n{body}",
            body.len()
        );
        let req = read(&[raw.as_bytes()]).unwrap();
        match route(&req, "123****8901", origin) {
            Routed::Respond(status, content_type, body) => respond(status, content_type, &body),
            Routed::Forward(token) => {
                delivered_tokens.push(token);
                let (status, content_type, body) = delivered(true);
                respond(status, content_type, &body)
            }
        }
    };

    let refused = post("http://evil.example");
    assert!(
        refused.starts_with("HTTP/1.1 403 Forbidden\r\n"),
        "unexpected response: {refused}"
    );
    let accepted = post(origin);
    assert!(
        accepted.starts_with("HTTP/1.1 200 OK\r\n"),
        "unexpected response: {accepted}"
    );
    assert_eq!(delivered_tokens, vec!["TOKEN123"]);
}

#[test]
fn escape_neutralises_markup() {
    assert_eq!(escape("<b>\"&"), "&lt;b&gt;&quot;&amp;");
}

#[test]
fn replacing_is_not_repeated() {
    assert_eq!(replace_all("aXbX", "X", "XX"), "aXXbXX");
    assert_eq!(replace_all("none", "X", "y"), "none");
    assert_eq!(escape("&amp;"), "&amp;amp;");
}

#[test]
fn heads_that_are_no_utf8_are_read_anyway() {
    let mut raw = b"GET /\xff HTTP/1.1\r\n\r\n".to_vec();
    let req = read(&[&raw]).unwrap();
    assert_eq!(req.path, "/\u{fffd}");
    raw.clear();
}

#[test]
fn mobile_numbers_are_six_to_fifteen_digits() {
    for ok in ["123456", "+123456", "12345678901", "+8612345678901", "+123456789012345"] {
        assert!(check_mobile(ok).is_ok(), "{ok}");
    }
    for bad in ["", "+", "12345", "+12345", "1234567890123456", "+1234567890123456", "12345a", "++123456", "１２３４５６"] {
        assert_eq!(
            check_mobile(bad),
            Err(format!("expected a mobile number like 12345678901, got '{bad}'"))
        );
    }
}

#[test]
fn mobile_numbers_are_masked() {
    assert_eq!(mask_mobile("12345678901"), "123****8901");
    assert_eq!(mask_mobile("1234567"), "123****4567");
    assert_eq!(mask_mobile("123456"), "******");
    assert_eq!(mask_mobile(""), "*");
}
