use oray_tools::error::Error;
use oray_tools::plug::PlugApi;
use oray_tools::trace::{Exchange, RequestLog};
use oray_tools::url::{form_body, query_url};
use oray_tools::wakeup::{
    device_list_url, effective_device_limit, find_list_url, find_not_found_message,
    page_warnings, WakeupApi, WakeupDevice, WakeupDevicesResponse, DEVICE_LIST_LIMIT,
};
use oray_tools::wakeup_cmd::{
    after_find, after_rename, failure_json, fill, json_memo, json_renamed, list_lines,
    print_wakeup_device, start, WakeupCall, WakeupCmd,
};
use oray_tools::plug_cmd::PlugCmd;
use oray_tools::prompt::{Asked, Session};

/// The list URL must stay the same for a normal SN, and must percent-encode
/// everything else.
#[test]
fn device_list_url_plain_sn_matches_legacy_format() {
    assert_eq!(
        device_list_url("https://api-std.sunlogin.oray.com", None).unwrap(),
        "https://api-std.sunlogin.oray.com/wakeup/devices?offset=0&limit=100"
    );
    assert_eq!(
        device_list_url("https://api-std.sunlogin.oray.com", Some("100000000001")).unwrap(),
        "https://api-std.sunlogin.oray.com/wakeup/devices?offset=0&limit=100&sn=100000000001"
    );
    // A URL-safe sn with dashes/underscores/dots also stays verbatim.
    assert_eq!(
        device_list_url("https://example.invalid", Some("AB_cd-1.2")).unwrap(),
        "https://example.invalid/wakeup/devices?offset=0&limit=100&sn=AB_cd-1.2"
    );
}

#[test]
fn device_list_url_encodes_special_sn() {
    let space = device_list_url("https://example.invalid", Some("a b")).unwrap();
    assert_eq!(
        space,
        "https://example.invalid/wakeup/devices?offset=0&limit=100&sn=a+b"
    );

    // `&` must not split the query, `+` must not decode to a space,
    // non-ASCII must be UTF-8 percent-encoded.
    let weird = device_list_url("https://example.invalid", Some("a&b+c中文")).unwrap();
    assert!(!weird.contains(' '));
    assert!(weird.ends_with("&sn=a%26b%2Bc%E4%B8%AD%E6%96%87"));
    // Exactly one `sn=` pair, so nothing got injected as a new parameter.
    assert_eq!(weird.matches("sn=").count(), 1);
    // `?offset=0&limit=100&sn=…` — the only two separators in the URL.
    assert_eq!(weird.matches('&').count(), 2);
}

/// `find` must issue the server-side `sn=` filter.
#[test]
fn find_url_carries_the_sn_filter() {
    let url = find_list_url("https://api-std.sunlogin.oray.com", "100000000001").unwrap();
    assert_eq!(
        url,
        "https://api-std.sunlogin.oray.com/wakeup/devices?offset=0&limit=100&sn=100000000001"
    );
    // The page cap rides the same constant the message below quotes.
    assert_eq!(DEVICE_LIST_LIMIT, 100);
}

/// A miss has to say how many devices were listed and that the scan stops at
/// the page cap.
#[test]
fn find_not_found_message_reports_the_scanned_count_and_cap() {
    assert_eq!(
        find_not_found_message("100000000001", 100),
        "wakeup device sn=100000000001 not found among 100 devices listed (only the first \
         100 are scanned)"
    );
    // Fewer devices than the cap: the count is what was actually listed.
    let msg = find_not_found_message("42", 3);
    assert!(msg.contains("among 3 devices listed"), "{msg}");
    assert!(msg.contains("only the first 100 are scanned"), "{msg}");
    assert!(msg.starts_with("wakeup device sn=42 not found"), "{msg}");
}

/// A full page is the endpoint's only hint that more devices may exist, so it
/// has to be reported — together with any capped `--limit`.
#[test]
fn page_warnings_flag_a_full_page_and_a_capped_limit() {
    let full = page_warnings(0, DEVICE_LIST_LIMIT, DEVICE_LIST_LIMIT);
    assert_eq!(full.len(), 1, "{full:?}");
    assert!(
        full[0].contains("a full page (100 fetched at --limit 100)"),
        "{}",
        full[0]
    );
    assert!(full[0].contains("--offset 100"), "{}", full[0]);

    let capped = page_warnings(0, 20_000, 10_000);
    assert_eq!(capped.len(), 2, "{capped:?}");
    assert!(
        capped[0].contains("--limit 20000 requested, 10000 sent"),
        "{}",
        capped[0]
    );
    assert!(capped[1].contains("--offset 10000"), "{}", capped[1]);
}

/// A short page is provably the last one: nothing to warn about, and the
/// next-page offset advances by what was actually fetched.
#[test]
fn page_warnings_stay_quiet_on_a_short_page() {
    assert!(page_warnings(0, DEVICE_LIST_LIMIT, 3).is_empty());
    let next = page_warnings(150, 50, 50);
    assert_eq!(next.len(), 1, "{next:?}");
    assert!(next[0].contains("--offset 200"), "{}", next[0]);
}

#[test]
fn sent_limits_are_bounded() {
    assert_eq!(effective_device_limit(7), 7);
    assert_eq!(effective_device_limit(10_000), 10_000);
    assert_eq!(effective_device_limit(10_001), 10_000);
}

#[test]
fn mod_json_shape_rename() {
    let v = json_renamed("100000000001", "desk plug").to_value();
    assert_eq!(
        v.to_string(),
        r#"{"name":"desk plug","ok":true,"sn":"100000000001"}"#
    );
    let v = oray_tools::remote_cmd::json_renamed(42, "workstation").to_value();
    assert_eq!(v.to_string(), r#"{"id":42,"name":"workstation","ok":true}"#);
}

#[test]
fn mod_json_shape_memo() {
    let v = json_memo("100000000001", "阳台").to_value();
    assert_eq!(v.to_string(), r#"{"memo":"阳台","ok":true,"sn":"100000000001"}"#);
    let v = oray_tools::remote_cmd::json_memo(42, "办公桌").to_value();
    assert_eq!(v.to_string(), r#"{"id":42,"memo":"办公桌","ok":true}"#);
}

// ----------------------------------------------------------------------- requests

#[test]
fn bad_bases_are_reported() {
    for url in [
        device_list_url("not a url", None),
        find_list_url("", "1"),
        query_url("http://", &vec![("a", "b")], "slapi"),
    ] {
        assert!(matches!(url, Err(Error::Api(_))), "{url:?}");
    }
    assert!(WakeupApi::new("::").list("T", 0, 1, None).is_err());
}

#[test]
fn queries_go_before_a_fragment() {
    assert_eq!(form_body(&vec![("a b", "c&d"), ("e", "")]), "a+b=c%26d&e=");
    assert_eq!(form_body(&vec![("k", "*-._~!")]), "k=*-._%7E%21");
    let pairs = vec![("a", "b&c"), ("d", "中 ")];
    for (base, url) in [
        ("https://h/p?x=1#f", "https://h/p?x=1&a=b%26c&d=%E4%B8%AD+#f"),
        ("https://h/p?#f", "https://h/p?a=b%26c&d=%E4%B8%AD+#f"),
        ("https://h/p#f?g", "https://h/p?a=b%26c&d=%E4%B8%AD+#f?g"),
    ] {
        assert_eq!(query_url(base, &pairs, "x").unwrap(), url);
    }
    // Without parameters an existing query stays as it is.
    assert_eq!(query_url("https://h/p?x=1#f", &vec![], "x").unwrap(), "https://h/p?x=1#f");
    assert_eq!(query_url("https://h/p#f", &vec![], "x").unwrap(), "https://h/p?#f");
    // The URL is brought into its normal form.
    assert_eq!(
        query_url("HTTP://Example.COM:80", &vec![("a", "b")], "x").unwrap(),
        "http://example.com/?a=b"
    );
}

#[test]
fn list_requests_carry_offset_and_limit() {
    let api = WakeupApi::new("https://api.example.com/");
    let req = api.list("TOK", 200, 50, None).unwrap();
    assert_eq!(req.method, "GET");
    assert_eq!(req.url, "https://api.example.com/wakeup/devices?offset=200&limit=50");
    assert!(req.headers.iter().any(|h| h.0 == "Authorization" && h.1 == "Bearer TOK"));
    let req = api.list("TOK", 0, 99_999, None).unwrap();
    assert!(req.url.ends_with("limit=10000"), "{}", req.url);
    let req = api.find("TOK", "S 1").unwrap();
    assert!(req.url.ends_with("&sn=S+1"), "{}", req.url);
}

fn device(sn: &str, name: &str, memo: Option<&str>) -> WakeupDevice {
    WakeupDevice {
        device_id: 900001,
        sn: sn.to_string(),
        mac: "aa:bb:cc:dd:ee:01".to_string(),
        owner_id: 600001,
        name: name.to_string(),
        kind: 5,
        model: "C1Pro-BLE-V3".to_string(),
        service_type: 5,
        create_time: "2026-09-01 19:41:03".to_string(),
        isenable: true,
        device_type: "sl_smartplug".to_string(),
        hardwareid: 700001,
        description: memo.map(|m| m.to_string()),
        remote_ids: vec![800001, 800002],
        hardware_type: "DEMO-PLUG".to_string(),
        remotes: Vec::new(),
        outletcount: 1,
        delays: Vec::new(),
    }
}

fn exchange(status: u16) -> Exchange {
    Exchange {
        log: RequestLog {
            method: "GET".to_string(),
            url: "https://api.example.com/wakeup/devices".to_string(),
            request_headers: Vec::new(),
            request_body: None,
            status: Some(status),
            response_body: String::new(),
        },
        status,
        text: "oops".to_string(),
    }
}

#[test]
fn devices_are_found_by_their_sn() {
    let all = || WakeupApi::listed(
        exchange(200),
        Ok(WakeupDevicesResponse { devices: vec![device("1", "a", None), device("2", "b", None)] }),
    );
    assert!(matches!(WakeupApi::found(all(), "2"), Ok(d) if d.data.name == "b"));
    match WakeupApi::found(all(), "3") {
        Err(e) => assert_eq!(e.message(), find_not_found_message("3", 2)),
        Ok(_) => panic!("found"),
    }
    match WakeupApi::listed(exchange(500), Ok(WakeupDevicesResponse { devices: Vec::new() })) {
        Err(e) => assert!(e.message().contains("HTTP 500"), "{}", e.message()),
        Ok(_) => panic!("listed"),
    }
}

// ----------------------------------------------------------------------- commands

fn rename(sn: Option<&str>, name: Option<&str>) -> WakeupCmd {
    WakeupCmd::Rename {
        sn: sn.map(|s| s.to_string()),
        new_name: name.map(|s| s.to_string()),
    }
}

#[test]
fn commands_start_with_a_call_or_a_complaint() {
    assert!(matches!(
        start(&WakeupCmd::List { offset: 5, limit: 7 }),
        Some(Ok(WakeupCall::List(5, 7)))
    ));
    assert!(matches!(
        start(&WakeupCmd::List { offset: 0, limit: 0 }),
        Some(Err(m)) if m == "--limit must be at least 1"
    ));
    assert!(matches!(
        start(&WakeupCmd::Info { sn: None }),
        Some(Err(m)) if m == "missing <SN>"
    ));
    assert!(matches!(
        start(&rename(Some("1"), None)),
        Some(Err(m)) if m == "missing <NEW_NAME>"
    ));
    assert!(matches!(
        start(&rename(Some("1"), Some("n"))),
        Some(Ok(WakeupCall::Find(sn))) if sn == "1"
    ));
    let plug = WakeupCmd::Plug { sub: PlugCmd::On { sn: None, index: 0 } };
    assert!(start(&plug).is_none());
}

#[test]
fn renaming_keeps_the_memo_and_the_other_way_round() {
    let found = device("1", "old", Some("memo"));
    match after_find(&rename(Some("1"), Some("new")), &found) {
        Some(WakeupCall::Rename(sn, name, memo)) => {
            assert_eq!((sn.as_str(), name.as_str(), memo.as_str()), ("1", "new", "memo"));
        }
        _ => panic!("no call"),
    }
    let cmd = WakeupCmd::Memo { sn: Some("1".into()), new_memo: Some("text".into()) };
    match after_find(&cmd, &device("1", "old", None)) {
        Some(call) => {
            let req = call
                .request(
                    &WakeupApi::new("https://api.example.com"),
                    &PlugApi::new("https://slapi.example.com"),
                    "TOK",
                )
                .unwrap();
            assert_eq!(req.url, "https://slapi.example.com/smart-plug/rename");
            assert_eq!(
                req.body.as_deref(),
                Some("sn=1&name=old&description=text&_format=json")
            );
        }
        None => panic!("no call"),
    }
    let report = after_rename(&cmd).unwrap();
    assert_eq!(report.line, "memo of 1 set to 'text'");
    assert_eq!(report.json.compact(), r#"{"memo":"text","ok":true,"sn":"1"}"#);
    let report = after_rename(&rename(Some("1"), Some("new"))).unwrap();
    assert_eq!(report.line, "renamed 1 to 'new'");
    assert!(after_rename(&WakeupCmd::List { offset: 0, limit: 1 }).is_none());
}

#[test]
fn missing_device_arguments_are_asked_for() {
    let mut io = Session::over("100\nnew name\n");
    match fill(rename(None, None), true, &mut io, true) {
        Asked::Value(WakeupCmd::Rename { sn, new_name }) => {
            assert_eq!(sn.as_deref(), Some("100"));
            assert_eq!(new_name.as_deref(), Some("new name"));
        }
        _ => panic!("not filled"),
    }
    assert_eq!(io.out, "Device serial number (SN): New device name: ");
    // Without the flag nothing is asked.
    let mut io = Session::over("100\n");
    assert!(matches!(
        fill(rename(None, None), false, &mut io, true),
        Asked::Value(WakeupCmd::Rename { sn: None, new_name: None })
    ));
    assert_eq!(io.out, "");
    let mut io = Session::over("100\n");
    assert!(matches!(fill(rename(None, None), true, &mut io, false), Asked::Failed(_)));
}

#[test]
fn device_lines() {
    let resp = WakeupDevicesResponse { devices: vec![device("1", "a", None)] };
    assert_eq!(list_lines(&resp), vec!["sn=1 name=a type=sl_smartplug outlets=1 enabled"]);
    let lines = print_wakeup_device(&device("1", "a", Some("m")));
    assert_eq!(lines[0], "sn:          1");
    assert!(lines.contains(&"type:        sl_smartplug (5)".to_string()));
    assert!(lines.contains(&"memo:        m".to_string()));
    assert!(lines.contains(&"remote_ids:  [800001, 800002]".to_string()));
    assert_eq!(print_wakeup_device(&device("1", "a", None)).len(), lines.len() - 1);
}

#[test]
fn failures_are_one_document_too() {
    let info = WakeupCmd::Info { sn: None };
    assert_eq!(
        failure_json(&info, true, "missing <SN>").unwrap().compact(),
        r#"{"error":"missing <SN>","ok":false}"#
    );
    assert!(failure_json(&info, false, "missing <SN>").is_none());
    let plug = WakeupCmd::Plug { sub: PlugCmd::On { sn: None, index: 0 } };
    assert!(failure_json(&plug, true, "missing <SN>").is_none());
}
