use oray_tools::error::Error;
use oray_tools::prompt::{Asked, Session};
use oray_tools::remote::{
    remotes_list_url, ConsoleRemote, ConsoleResponse, Remote, RemoteApi, RemoteInfo, RemoteState,
    RemoteUpdate, RemotesResponse, UpdateResponse, REMOTE_PAGE_LIMIT,
};
use oray_tools::remote_cmd::{
    after_find, after_update, fill, info_lines, list_lines, start, status_lines, RemoteCall,
    RemoteCmd,
};
use oray_tools::trace::{Exchange, RequestLog};

/// The state of the first remote of a JSON document, where it has one.
fn first_state(json: &str) -> Option<RemoteState> {
    let parsed: serde_json::Value = serde_json::from_str(json).unwrap();
    let state = parsed["remotes"][0].get("state")?.clone();
    let text = |name: &str| -> String { state[name].as_str().unwrap_or_default().to_string() };
    Some(RemoteState {
        addr: text("addr"),
        version: text("version"),
        ip: text("ip"),
        login_time: state["login_time"].as_u64().unwrap_or(0),
        fastcode: text("fastcode"),
        owner_id: state["owner_id"].as_u64().unwrap_or(0),
    })
}

#[test]
fn empty_state_is_offline() {
    // `"state":{}` is what the cloud returns while a remote is offline.
    let json = r#"{"remotes":[{"remote_id":800001,"mac":"aa:bb:cc:dd:ee:02","owner_id":600001,"create_time":1784993926,"statuscode":379547,"client":"SLRC_WINDOWS","info":{"remote_id":800001,"name":"Demo-Desktop","os_name":"ExampleOS"},"state":{},"limit_control":"0"}],"total":1,"page_size_limit":10000}"#;
    let s = first_state(json).unwrap();
    assert!(!s.is_online());
}

#[test]
fn populated_state_is_online() {
    let json = r#"{"remotes":[{"remote_id":800001,"mac":"aa:bb:cc:dd:ee:02","owner_id":600001,"create_time":1784993926,"statuscode":379547,"client":"SLRC_WINDOWS","info":{"remote_id":800001,"name":"Demo-Desktop","os_name":"ExampleOS"},"state":{"ip":"198.51.100.7"},"limit_control":"0"}],"total":1,"page_size_limit":10000}"#;
    let s = first_state(json).unwrap();
    assert!(s.is_online());
}

#[test]
fn missing_state_is_offline() {
    let json = r#"{"remotes":[{"remote_id":800001,"mac":"aa:bb:cc:dd:ee:02","owner_id":600001,"create_time":1784993926,"statuscode":379547,"client":"SLRC_WINDOWS","info":{"remote_id":800001,"name":"Demo-Desktop","os_name":"ExampleOS"},"limit_control":"0"}],"total":1,"page_size_limit":10000}"#;
    assert!(first_state(json).is_none());
}

#[test]
fn update_payload_serializes() {
    let u = RemoteUpdate::new("New-Name", "New-Memo");
    let v: serde_json::Value = serde_json::from_str(&u.to_json()).unwrap();
    assert_eq!(v["name"], "New-Name");
    assert_eq!(v["description"], "New-Memo");
    assert_eq!(v["update_type"], 1);
}

#[test]
fn update_payloads_keep_the_order_of_their_fields() {
    assert_eq!(
        RemoteUpdate::new("a\"b", "备注").to_json(),
        r#"{"name":"a\"b","description":"备注","update_type":1}"#
    );
}

/// The query shape is shared by `list`, `find` and the command line.
#[test]
fn list_url_carries_offset_and_limit() {
    assert_eq!(REMOTE_PAGE_LIMIT, 10_000);
    assert_eq!(
        remotes_list_url("https://api-std.sunlogin.oray.com", 0, REMOTE_PAGE_LIMIT),
        "https://api-std.sunlogin.oray.com/remotes?offset=0&limit=10000&version=v2&new_server=1"
    );
    assert_eq!(
        remotes_list_url("https://api-std.sunlogin.oray.com", 42, 7),
        "https://api-std.sunlogin.oray.com/remotes?offset=42&limit=7&version=v2&new_server=1"
    );
}

fn info(name: &str, memo: &str) -> RemoteInfo {
    RemoteInfo {
        remote_id: 800001,
        name: name.to_string(),
        pc_name: "pc".to_string(),
        cpu: "cpu".to_string(),
        memory: "16384MB".to_string(),
        os_name: "ExampleOS".to_string(),
        description: memo.to_string(),
        disk_drive: String::new(),
        video_controller: String::new(),
        network_adapter: String::new(),
        version: "1.2.3".to_string(),
        os: String::new(),
        screen_size: "2560:1600".to_string(),
    }
}

fn state(ip: &str) -> RemoteState {
    RemoteState {
        addr: String::new(),
        version: String::new(),
        ip: ip.to_string(),
        login_time: 1788438331,
        fastcode: "123456".to_string(),
        owner_id: 0,
    }
}

fn remote(id: u64, name: &str, memo: &str, state: Option<RemoteState>) -> Remote {
    Remote {
        remote_id: id,
        mac: "aa".to_string(),
        owner_id: 1,
        create_time: 2,
        statuscode: 3,
        client: "SLRC_WINDOWS".to_string(),
        info: info(name, memo),
        state,
        limit_control: "0".to_string(),
    }
}

fn exchange(status: u16) -> Exchange {
    Exchange {
        log: RequestLog {
            method: "GET".to_string(),
            url: "https://api.example.com/remotes".to_string(),
            request_headers: Vec::new(),
            request_body: None,
            status: Some(status),
            response_body: String::new(),
        },
        status,
        text: "oops".to_string(),
    }
}

fn no_json<T>() -> Result<T, serde_json::Error> {
    match serde_json::from_str::<serde_json::Value>("{") {
        Ok(_) => panic!("parsed"),
        Err(e) => Err(e),
    }
}

#[test]
fn remotes_are_found_by_their_id() {
    let all = || RemoteApi::listed(
        exchange(200),
        Ok(RemotesResponse {
            remotes: vec![remote(1, "a", "", None), remote(2, "b", "", None)],
            total: Some(2),
            page_size_limit: None,
        }),
    );
    assert!(matches!(RemoteApi::found(all(), 2), Ok(r) if r.data.info.name == "b"));
    match RemoteApi::found(all(), 3) {
        Err(e) => assert_eq!(e.message(), "remote 3 not found among 2 remotes listed"),
        Ok(_) => panic!("found"),
    }
    match RemoteApi::listed(exchange(401), no_json()) {
        Err(e) => assert!(matches!(e.error, Error::HttpStatus { status: 401, .. })),
        Ok(_) => panic!("listed"),
    }
    match RemoteApi::detailed(exchange(200), no_json()) {
        Err(e) => assert!(matches!(e.error, Error::BadBody { .. })),
        Ok(_) => panic!("accepted"),
    }
    let done = UpdateResponse { remote_id: 1, name: "n".into(), description: "d".into() };
    assert!(matches!(RemoteApi::updated(exchange(200), Ok(done)), Ok(r) if r.data.name == "n"));
}

#[test]
fn remote_requests() {
    let api = RemoteApi::new("https://api.example.com/");
    let req = RemoteCall::Find(5).request(&api, "TOK");
    assert_eq!(
        req.url,
        "https://api.example.com/remotes?offset=0&limit=10000&version=v2&new_server=1"
    );
    let req = RemoteCall::Detail(5).request(&api, "TOK");
    assert_eq!(
        req.url,
        "https://api.example.com/console/remotes/5?with_powerplan=true&with_extend=true&new_server=1"
    );
    let req = RemoteCall::Update(5, "n".into(), "m".into()).request(&api, "TOK");
    assert_eq!(req.method, "PATCH");
    assert_eq!(req.url, "https://api.example.com/remotes/5/info");
    assert_eq!(
        req.body.as_deref(),
        Some(r#"{"name":"n","description":"m","update_type":1}"#)
    );
}

#[test]
fn remote_commands_start_with_a_call_or_a_complaint() {
    assert!(matches!(start(&RemoteCmd::List), Ok(RemoteCall::List)));
    assert!(matches!(start(&RemoteCmd::Info { id: Some(4) }), Ok(RemoteCall::Detail(4))));
    assert!(matches!(start(&RemoteCmd::Status { id: None }), Err(m) if m == "missing <ID>"));
    assert!(matches!(
        start(&RemoteCmd::Memo { id: Some(1), new_memo: None }),
        Err(m) if m == "missing <NEW_MEMO>"
    ));
}

#[test]
fn updates_send_the_other_field_as_it_is() {
    let current = remote(4, "old", "memo", None);
    let rename = RemoteCmd::Rename { id: Some(4), new_name: Some("new".into()) };
    assert!(matches!(
        after_find(&rename, &current),
        Some(RemoteCall::Update(4, n, m)) if n == "new" && m == "memo"
    ));
    let memo = RemoteCmd::Memo { id: Some(4), new_memo: Some("text".into()) };
    assert!(matches!(
        after_find(&memo, &current),
        Some(RemoteCall::Update(4, n, m)) if n == "old" && m == "text"
    ));
    assert!(after_find(&RemoteCmd::Status { id: Some(4) }, &current).is_none());
    let report = after_update(&rename).unwrap();
    assert_eq!(report.line, "renamed remote 4 to 'new'");
    assert_eq!(after_update(&memo).unwrap().line, "memo of remote 4 set to 'text'");
}

#[test]
fn missing_remote_arguments_are_asked_for() {
    let mut io = Session::over("x\n42\nname\n");
    match fill(RemoteCmd::Rename { id: None, new_name: None }, true, &mut io, true) {
        Asked::Value(RemoteCmd::Rename { id, new_name }) => {
            assert_eq!(id, Some(42));
            assert_eq!(new_name.as_deref(), Some("name"));
        }
        _ => panic!("not filled"),
    }
    assert!(io.out.contains("expected a number, got 'x'"), "{}", io.out);
}

#[test]
fn remote_lines() {
    let up = remote(1, "a", "m", Some(state("198.51.100.7")));
    let down = remote(2, "b", "", None);
    assert_eq!(
        list_lines(&RemotesResponse {
            remotes: vec![up, down],
            total: None,
            page_size_limit: None
        }),
        vec![
            "id=1 name=a os=ExampleOS client=SLRC_WINDOWS online memo=m",
            "id=2 name=b os=ExampleOS client=SLRC_WINDOWS offline",
        ]
    );
    assert_eq!(
        status_lines(&remote(1, "a", "m", Some(state("198.51.100.7")))),
        vec![
            "id=1 name=a status=online",
            "ip=198.51.100.7",
            "login_time=2026-09-03T12:25:31+00:00",
            "fastcode=123456",
            "client=SLRC_WINDOWS os=ExampleOS",
        ]
    );
    let detail = ConsoleResponse {
        remote: ConsoleRemote {
            remote_id: 1,
            mac: "aa".to_string(),
            owner_id: 1,
            create_time: 2,
            statuscode: 3,
            client: "SLRC".to_string(),
            info: info("a", ""),
            state: None,
            limit_control: "0".to_string(),
        },
    };
    let lines = info_lines(&detail.remote);
    assert_eq!(lines[0], "id:           1");
    assert_eq!(lines[3], "client:       SLRC 1.2.3");
    assert_eq!(lines.last().unwrap(), "state:        offline");
    assert!(!lines.iter().any(|l| l.starts_with("memo:")));
}
