use oray_tools::error::Error;
use oray_tools::logs::{StatusLog, StatusLogsData};
use oray_tools::plug::{
    answer, check_result, plug_url, CntdownResp, PlugApi, PlugStatus, PlugStatusResp, PlugTimer,
    SetResp, SlResp,
};
use oray_tools::plug_call::{
    change, change_timer, device, start, timer_for, PlugAsk, PlugStep,
};
use oray_tools::plug_cmd::{fill, CountdownCmd, PlugCmd, TimerCmd};
use oray_tools::plug_report::{
    added_text, after_change, countdown_text, json_countdown_start, json_countdown_stop, json_led,
    json_plug_switch, json_power_on_restore, json_timer_enabled, json_timer_removed,
    status_lines, timer_lines, timers_in_range, timers_json,
};
use oray_tools::prompt::{Asked, Session};
use oray_tools::single::{choose_device, port_lines, Device, PlugAction};
use oray_tools::trace::{Exchange, RequestLog};

#[test]
fn url_encodes_timer_json() {
    let url = plug_url(
        "https://slapi.oray.net",
        &vec![
            ("sn", "100000000001"),
            ("_api", "plug_timer_add"),
            ("index", "0"),
            ("timer", r#"{"time":300,"action":1,"repeat":0,"enabled":1}"#),
        ],
    )
    .unwrap();
    assert!(url.starts_with("https://slapi.oray.net/plug?"));
    assert!(url.contains("_api=plug_timer_add"));
    assert!(url.contains("%7B%22time%22%3A300"));
}

fn value(json: &str) -> serde_json::Value {
    serde_json::from_str(json).unwrap()
}

#[test]
fn json_shape_plug_switch_led_and_restore() {
    assert_eq!(
        json_plug_switch("SN1", 2, true).to_value(),
        value(r#"{ "ok": true, "sn": "SN1", "index": 2, "status": "on" }"#)
    );
    assert_eq!(
        json_plug_switch("SN1", 2, false).to_value(),
        value(r#"{ "ok": true, "sn": "SN1", "index": 2, "status": "off" }"#)
    );
    assert_eq!(
        json_led("SN1", true).to_value(),
        value(r#"{ "ok": true, "sn": "SN1", "led": "on" }"#)
    );
    assert_eq!(
        json_led("SN1", false).to_value(),
        value(r#"{ "ok": true, "sn": "SN1", "led": "off" }"#)
    );
    assert_eq!(
        json_power_on_restore("SN1", 0).to_value(),
        value(r#"{ "ok": true, "sn": "SN1", "state": 0 }"#)
    );
    assert_eq!(
        json_power_on_restore("SN1", 2).to_value(),
        value(r#"{ "ok": true, "sn": "SN1", "state": 2 }"#)
    );
}

#[test]
fn json_shape_countdown_start_and_stop() {
    assert_eq!(
        json_countdown_start("SN1", 0, 600, 1).to_value(),
        value(r#"{ "ok": true, "sn": "SN1", "index": 0, "count": 600, "action": 1 }"#)
    );
    assert_eq!(
        json_countdown_start("SN1", 0, 30, 0).to_value(),
        value(r#"{ "ok": true, "sn": "SN1", "index": 0, "count": 30, "action": 0 }"#)
    );
    assert_eq!(
        json_countdown_stop("SN1", 0).to_value(),
        value(r#"{ "ok": true, "sn": "SN1", "index": 0 }"#)
    );
}

#[test]
fn json_shape_timer_remove_and_enable_disable() {
    assert_eq!(
        json_timer_removed("SN1", 0, 7).to_value(),
        value(r#"{ "ok": true, "sn": "SN1", "index": 0, "timer_id": 7 }"#)
    );
    assert_eq!(
        json_timer_enabled("SN1", 0, 7, true).to_value(),
        value(r#"{ "ok": true, "sn": "SN1", "index": 0, "timer_id": 7, "enabled": true }"#)
    );
    assert_eq!(
        json_timer_enabled("SN1", 0, 7, false).to_value(),
        value(r#"{ "ok": true, "sn": "SN1", "index": 0, "timer_id": 7, "enabled": false }"#)
    );
}

// ------------------------------------------------------------------------ answers

fn exchange(status: u16) -> Exchange {
    Exchange {
        log: RequestLog {
            method: "GET".to_string(),
            url: "https://slapi.example.com/plug".to_string(),
            request_headers: Vec::new(),
            request_body: None,
            status: Some(status),
            response_body: String::new(),
        },
        status,
        text: "body".to_string(),
    }
}

fn ack(result: i32, message: Option<&str>) -> SetResp {
    SetResp { result, message: message.map(|m| m.to_string()), timer_id: None }
}

#[test]
fn result_codes_decide() {
    assert!(answer(exchange(200), "set_plug_status", Ok(ack(0, None))).is_ok());
    match answer(exchange(200), "set_plug_status", Ok(ack(7, Some("busy")))) {
        Err(e) => {
            let m = e.message();
            assert!(m.contains("set_plug_status") && m.contains('7') && m.contains("busy"), "{m}");
        }
        Ok(_) => panic!("accepted"),
    }
    match answer(exchange(200), "set_plug_status", Ok(ack(1010, None))) {
        Err(e) => assert!(e.is_token_expired()),
        Ok(_) => panic!("accepted"),
    }
    match answer(exchange(502), "set_plug_status", Ok(ack(0, None))) {
        Err(e) => assert!(matches!(e.error, Error::HttpStatus { status: 502, .. })),
        Ok(_) => panic!("accepted"),
    }
}

#[test]
fn stopping_a_countdown_that_does_not_run_is_fine() {
    assert!(check_result("plug_cntdown_del", 11, None).is_ok());
    assert!(check_result("plug_cntdown_del", 12, None).is_err());
    assert!(check_result("plug_cntdown_add", 11, None).is_err());
}

fn logs_data() -> StatusLogsData {
    StatusLogsData {
        logs: vec![StatusLog {
            event: "on".to_string(),
            status: 1,
            index: 0,
            createtime: 1788314204,
            createtime_format: "2026-09-02 09:56:44".to_string(),
        }],
        currentpage: 1,
        totalpage: 3,
        name: "demo plug".to_string(),
        sn: "100000000001".to_string(),
        count: 50,
    }
}

#[test]
fn log_answers_need_data() {
    let sl = |code: i32, data: Option<StatusLogsData>| SlResp { code, message: None, data };
    let r = PlugApi::status_logs_answer(exchange(200), Ok(sl(0, Some(logs_data()))));
    assert!(matches!(r, Ok(d) if d.data.totalpage == 3));
    match PlugApi::status_logs_answer(exchange(200), Ok(sl(0, None))) {
        Err(e) => assert_eq!(e.message(), "get-status-logs returned no data"),
        Ok(_) => panic!("accepted"),
    }
    match PlugApi::status_logs_answer(exchange(200), Ok(sl(1010, None))) {
        Err(e) => assert!(e.is_token_expired()),
        Ok(_) => panic!("accepted"),
    }
    let done: SlResp<u8> = SlResp { code: 0, message: None, data: None };
    assert!(PlugApi::rename_answer(exchange(200), Ok(done)).is_ok());
    let refused: SlResp<u8> = SlResp { code: 3, message: Some("no".to_string()), data: None };
    assert!(PlugApi::rename_answer(exchange(200), Ok(refused)).is_err());
}

// -------------------------------------------------------------------------- calls

fn url_of(ask: PlugAsk) -> String {
    let api = PlugApi::new("https://slapi.example.com/");
    ask.request(&api, "TOK", "SN1").unwrap().url
}

#[test]
fn calls_name_their_endpoint() {
    let timer = PlugTimer { time: Some(5), ..PlugTimer::default() };
    for ask in [
        PlugAsk::Status { index: 1 },
        PlugAsk::Switch { index: 1, on: true },
        PlugAsk::Led { on: false },
        PlugAsk::Restore { state: 2 },
        PlugAsk::Timers { index: 1 },
        PlugAsk::AddTimer { index: 1, timer },
        PlugAsk::SetTimer { index: 1, id: 7, enabled: true, action: 0, repeat: 3, time: 60 },
        PlugAsk::DeleteTimer { index: 1, id: 7, repeat: 3, time: 60 },
        PlugAsk::Countdown { index: 1 },
        PlugAsk::StartCountdown { index: 1, action: 1, count: 600 },
        PlugAsk::StopCountdown { index: 1 },
    ] {
        let url = url_of(ask);
        assert!(url.starts_with("https://slapi.example.com/plug?sn=SN1&"), "{url}");
        assert!(url.contains(&format!("_api={}", ask.endpoint())), "{url}");
    }
    assert_eq!(
        url_of(PlugAsk::Switch { index: 0, on: false }),
        "https://slapi.example.com/plug?sn=SN1&index=0&status=0&_api=set_plug_status"
    );
    assert_eq!(
        url_of(PlugAsk::SetTimer { index: 0, id: 7, enabled: false, action: 1, repeat: 3, time: 60 }),
        "https://slapi.example.com/plug?sn=SN1&timer_id=7&enabled=0&action=1&repeat=3&index=0&timer=60&_api=plug_timer_set"
    );
    let logs = PlugAsk::Logs { page: 4 };
    let req = logs.request(&PlugApi::new("https://slapi.example.com"), "TOK", "SN1").unwrap();
    assert_eq!(req.url, "https://slapi.example.com/smart-plug/get-status-logs");
    assert_eq!(req.body.as_deref(), Some("sn=SN1&page=4&_format=json"));
    assert!(PlugAsk::Led { on: true }.request(&PlugApi::new("nowhere"), "T", "S").is_err());
}

#[test]
fn timer_documents_fill_in_defaults() {
    let url = url_of(PlugAsk::AddTimer { index: 0, timer: PlugTimer::default() });
    assert!(
        url.ends_with(
            "timer=%7B%22action%22%3A1%2C%22enabled%22%3A1%2C%22repeat%22%3A0%2C%22time%22%3A0%7D"
        ),
        "{url}"
    );
}

#[test]
fn further_queries_name_the_plug() {
    let api = PlugApi::new("https://slapi.example.com");
    for (req, name) in [
        (api.get_version("T", "S"), "get_plug_version"),
        (api.get_wifi("T", "S"), "get_plug_wifi"),
        (api.get_func_list("T", "S"), "get_func_list"),
    ] {
        let url = req.unwrap().url;
        assert!(url.contains("sn=S") && url.contains(name), "{url}");
    }
}

// ----------------------------------------------------------------------- commands

fn sn() -> Option<String> {
    Some("SN1".to_string())
}

fn complaint(cmd: PlugCmd) -> String {
    match start(&cmd) {
        Err(m) => m,
        Ok(step) => panic!("starts with {step:?}"),
    }
}

#[test]
fn arguments_are_checked_before_anything_is_asked() {
    assert_eq!(complaint(PlugCmd::On { sn: None, index: 0 }), "missing <SN>");
    assert_eq!(complaint(PlugCmd::Led { sn: sn(), state: None }), "missing <STATE>");
    assert_eq!(
        complaint(PlugCmd::Led { sn: sn(), state: Some("Dim".into()) }),
        "expected on or off, got 'dim'"
    );
    assert_eq!(
        complaint(PlugCmd::PowerOnRestore { sn: sn(), state: Some(1) }),
        "power-on-restore state must be 0 (off) or 2 (keep last state), got 1"
    );
    let add = |time: Option<&str>, action: u8| PlugCmd::Timer {
        sub: TimerCmd::Add {
            sn: sn(),
            index: 0,
            time: time.map(|t| t.to_string()),
            action,
            repeat: 0,
            disabled: false,
        },
    };
    assert_eq!(complaint(add(None, 9)), "missing <TIME>");
    assert_eq!(complaint(add(Some("x"), 2)), "timer action must be 0 (off) or 1 (on)");
    assert_eq!(
        complaint(add(Some("25:00"), 1)),
        "invalid --time '25:00': use a local clock time like 19:25, or minutes of the day 0-1439 (e.g. 480 = 08:00)"
    );
    let remove = PlugCmd::Timer { sub: TimerCmd::Remove { sn: sn(), id: None, index: 0 } };
    assert_eq!(complaint(remove), "missing <ID>");
    let count = |count: Option<u64>, action: u8| PlugCmd::Countdown {
        sub: CountdownCmd::Start { sn: sn(), index: 0, count, action },
    };
    assert_eq!(complaint(count(None, 0)), "missing <COUNT>");
    assert_eq!(complaint(count(Some(0), 2)), "countdown action must be 0 (off) or 1 (on)");
    assert_eq!(complaint(count(Some(0), 1)), "countdown count must be > 0 seconds");
}

#[test]
fn commands_lead_to_their_calls() {
    assert_eq!(
        start(&PlugCmd::Off { sn: sn(), index: 2 }),
        Ok(PlugStep::Ask(PlugAsk::Switch { index: 2, on: false }))
    );
    assert_eq!(
        start(&PlugCmd::Led { sn: sn(), state: Some("1".into()) }),
        Ok(PlugStep::Ask(PlugAsk::Led { on: true }))
    );
    let logs = PlugCmd::Logs { sn: sn(), index: None, since: None, until: None, page: None };
    assert_eq!(start(&logs), Ok(PlugStep::SearchLogs));
    assert_eq!(device(&logs).map(|s| s.as_str()), Some("SN1"));
    let add = PlugCmd::Timer {
        sub: TimerCmd::Add {
            sn: sn(),
            index: 1,
            time: Some("8:00".into()),
            action: 0,
            repeat: 31,
            disabled: true,
        },
    };
    assert_eq!(
        start(&add),
        Ok(PlugStep::AddTimer { index: 1, time: 480, action: 0, repeat: 31, disabled: true })
    );
}

fn timers() -> Vec<PlugTimer> {
    vec![
        PlugTimer { timer_id: None, ..PlugTimer::default() },
        PlugTimer {
            timer_id: Some(7),
            time: Some(1080),
            action: Some(0),
            repeat: Some(31),
            enabled: Some(1),
        },
        PlugTimer { timer_id: Some(8), ..PlugTimer::default() },
    ]
}

#[test]
fn one_timer_is_changed_and_keeps_its_settings() {
    assert_eq!(
        change_timer("SN1", 0, 7, Some(false), &timers()),
        Ok(PlugAsk::SetTimer {
            index: 0,
            id: 7,
            enabled: false,
            action: 0,
            repeat: 31,
            time: 1080
        })
    );
    assert_eq!(
        change_timer("SN1", 0, 8, Some(true), &timers()),
        Ok(PlugAsk::SetTimer { index: 0, id: 8, enabled: true, action: 1, repeat: 0, time: 0 })
    );
    assert_eq!(
        change_timer("SN1", 2, 7, None, &timers()),
        Ok(PlugAsk::DeleteTimer { index: 2, id: 7, repeat: 31, time: 1080 })
    );
    assert_eq!(
        change_timer("SN1", 2, 9, None, &timers()),
        Err("timer 9 not found on sn=SN1 index=2".to_string())
    );
    assert_eq!(
        change(&TimerCmd::Disable { sn: sn(), id: Some(7), index: 1 }),
        Some((7, 1, Some(false)))
    );
    assert_eq!(change(&TimerCmd::Remove { sn: sn(), id: Some(7), index: 1 }), Some((7, 1, None)));
    assert_eq!(change(&TimerCmd::List { sn: sn(), index: 1 }), None);
}

#[test]
fn timers_are_listed_as_they_were_asked_for() {
    // 02:00 on weekdays in UTC+8 is 18:00 UTC from Sunday to Thursday.
    let mut timer = timer_for(120, 1, 31, false, 480);
    assert_eq!(timer.time, Some(1080));
    assert_eq!(timer.repeat, Some(31));
    timer.timer_id = Some(5);
    let listed = vec![timer];
    assert!(timers_in_range(&listed, 480));
    assert_eq!(
        timer_lines("SN1", 0, &listed, 480),
        vec![
            "sn=SN1 index=0 timer_id=5 time=02:00 days=周一周二周三周四周五 action=1 enabled (UTC+08:00)"
        ]
    );
    assert_eq!(
        timers_json(&listed, 480).to_value(),
        value(
            r#"[{"timer_id":5,"time":120,"time_local":"02:00","action":1,"repeat":31,"days":"周一周二周三周四周五","enabled":1,"tz":"UTC+08:00"}]"#
        )
    );
    assert_eq!(
        added_text("SN1", 0, Some(5), 120, 31, 1, false, 480),
        "sn=SN1 index=0 timer added: id=5 time=02:00 days=周一周二周三周四周五 action=1 enabled (UTC+08:00)"
    );
    assert_eq!(
        added_text("SN1", 0, None, 485, 0, 0, true, 0),
        "sn=SN1 index=0 timer added: id=- time=08:05 days=只一次 action=0 disabled (UTC+00:00)"
    );
}

#[test]
fn timers_without_settings_are_listed_with_dashes() {
    let bare = vec![PlugTimer::default()];
    assert_eq!(
        timer_lines("S", 1, &bare, -60),
        vec!["sn=S index=1 timer_id=- time=23:00 days=只一次 action=0 disabled (UTC-01:00)"]
    );
    assert_eq!(timer_lines("S", 1, &Vec::new(), 0), vec!["sn=S index=1 no timers"]);
    assert_eq!(timers_json(&Vec::new(), 0).compact(), "[]");
    let shown = timers_json(&bare, 0).to_value();
    assert!(shown[0]["timer_id"].is_null() && shown[0]["enabled"].is_null());
    let odd = vec![PlugTimer { time: Some(i64::MAX as u64), ..PlugTimer::default() }];
    assert!(!timers_in_range(&odd, 1));
    assert!(timers_in_range(&odd, 0));
}

#[test]
fn changes_are_reported() {
    let line = |cmd: PlugCmd| after_change(&cmd).unwrap().line;
    assert_eq!(line(PlugCmd::On { sn: sn(), index: 1 }), "sn=SN1 index=1 ON");
    assert_eq!(line(PlugCmd::Off { sn: sn(), index: 1 }), "sn=SN1 index=1 OFF");
    assert_eq!(line(PlugCmd::Led { sn: sn(), state: Some("off".into()) }), "sn=SN1 led OFF");
    assert_eq!(
        line(PlugCmd::PowerOnRestore { sn: sn(), state: Some(2) }),
        "sn=SN1 power-on-restore=2"
    );
    let timer = |sub: TimerCmd| line(PlugCmd::Timer { sub });
    assert_eq!(
        timer(TimerCmd::Remove { sn: sn(), id: Some(7), index: 0 }),
        "sn=SN1 index=0 timer 7 removed"
    );
    assert_eq!(
        timer(TimerCmd::Enable { sn: sn(), id: Some(7), index: 0 }),
        "sn=SN1 index=0 timer 7 enabled"
    );
    assert_eq!(
        timer(TimerCmd::Disable { sn: sn(), id: Some(7), index: 0 }),
        "sn=SN1 index=0 timer 7 disabled"
    );
    let countdown = |sub: CountdownCmd| line(PlugCmd::Countdown { sub });
    assert_eq!(
        countdown(CountdownCmd::Start { sn: sn(), index: 0, count: Some(600), action: 0 }),
        "sn=SN1 index=0 countdown started: 600s -> OFF"
    );
    assert_eq!(
        countdown(CountdownCmd::Stop { sn: sn(), index: 0 }),
        "sn=SN1 index=0 countdown stopped"
    );
    assert!(after_change(&PlugCmd::Status { sn: sn(), index: 0 }).is_none());
    let report = after_change(&PlugCmd::On { sn: sn(), index: 1 }).unwrap();
    assert_eq!(report.json.to_value()["ok"], true);
}

fn status(ports: Option<Vec<PlugStatus>>) -> PlugStatusResp {
    PlugStatusResp { result: 0, response: ports, message: None, led: None, def_st: None }
}

fn port(index: i32, status: i32) -> PlugStatus {
    PlugStatus { index, status, action: 0 }
}

#[test]
fn status_and_countdown_lines() {
    assert_eq!(
        status_lines("S", 0, &status(Some(vec![port(0, 1), port(-1, 0)]))),
        vec!["sn=S index=0 status=ON", "sn=S index=-1 status=OFF"]
    );
    assert_eq!(
        status_lines("S", 3, &status(None)),
        vec!["sn=S index=3 status=<<unknown>>"]
    );
    assert!(status_lines("S", 3, &status(Some(Vec::new()))).is_empty());
    let countdown = |remain: Option<u64>| CntdownResp {
        result: 0,
        message: None,
        index: Some(0),
        action: Some(1),
        count: Some(600),
        remain,
    };
    assert_eq!(
        countdown_text("S", 0, &countdown(Some(570))),
        "sn=S index=0 countdown running: remain=570s total=600s action=1"
    );
    assert_eq!(
        countdown_text("S", 0, &countdown(Some(0))),
        "sn=S index=0 no countdown running"
    );
    assert_eq!(countdown_text("S", 0, &countdown(None)), "sn=S index=0 no countdown running");
}

#[test]
fn missing_plug_arguments_are_asked_for() {
    let mut io = Session::over("S\nnoon\n12:30\n");
    let add = PlugCmd::Timer {
        sub: TimerCmd::Add {
            sn: None,
            index: 0,
            time: None,
            action: 1,
            repeat: 0,
            disabled: false,
        },
    };
    match fill(add, true, &mut io, true) {
        Asked::Value(PlugCmd::Timer { sub: TimerCmd::Add { sn, time, .. } }) => {
            assert_eq!(sn.as_deref(), Some("S"));
            assert_eq!(time.as_deref(), Some("12:30"));
        }
        _ => panic!("not filled"),
    }
    assert_eq!(io.out.matches("Timer time (e.g. 19:25): ").count(), 2);

    let mut io = Session::over("4294967296\n2\n");
    let restore = PlugCmd::PowerOnRestore { sn: sn(), state: None };
    assert!(matches!(
        fill(restore, true, &mut io, true),
        Asked::Value(PlugCmd::PowerOnRestore { state: Some(2), .. })
    ));
    let mut io = Session::new();
    let start = PlugCmd::Countdown {
        sub: CountdownCmd::Start { sn: sn(), index: 0, count: None, action: 0 },
    };
    assert!(matches!(fill(start, true, &mut io, true), Asked::Waiting(false)));
    assert_eq!(io.out, "Countdown seconds: ");
}

// ------------------------------------------------------------------- a single plug

#[test]
fn the_default_device_stands_in() {
    let default = || Some(Device { sn: "D".to_string(), index: 3 });
    let chosen = choose_device(None, None, &default()).unwrap();
    assert_eq!((chosen.sn.as_str(), chosen.index), ("D", 3));
    let chosen = choose_device(Some("X".into()), None, &default()).unwrap();
    assert_eq!((chosen.sn.as_str(), chosen.index), ("X", 3));
    let chosen = choose_device(Some("X".into()), Some(1), &default()).unwrap();
    assert_eq!((chosen.sn.as_str(), chosen.index), ("X", 1));
    let chosen = choose_device(Some("X".into()), None, &None).unwrap();
    assert_eq!(chosen.index, 0);
    for missing in [choose_device(None, Some(1), &None), choose_device(Some("".into()), None, &default())] {
        assert!(matches!(
            missing,
            Err(m) if m == "no SN; pass --sn or set a default device in config"
        ));
    }
}

#[test]
fn one_port_is_shown_or_unknown() {
    let d = Device { sn: "S".to_string(), index: 1 };
    let ports = status(Some(vec![port(0, 1), port(1, 0), port(1, 1), port(-1, 1)]));
    assert_eq!(
        port_lines(&d, &ports),
        vec!["sn=S index=1 status=OFF", "sn=S index=1 status=ON"]
    );
    let other = Device { sn: "S".to_string(), index: 9 };
    assert_eq!(port_lines(&other, &ports), vec!["sn=S index=9 status=<<unknown>>"]);
    assert_eq!(port_lines(&d, &status(None)), vec!["sn=S index=1 status=<<unknown>>"]);
    let wrapped = Device { sn: "S".to_string(), index: usize::MAX };
    assert_eq!(port_lines(&wrapped, &ports), vec!["sn=S index=-1 status=ON"]);
    assert_eq!(PlugAction::On.done(&d).as_deref(), Some("sn=S port=1 ON"));
    assert_eq!(PlugAction::Off.done(&d).as_deref(), Some("sn=S port=1 OFF"));
    assert_eq!(PlugAction::Status.done(&d), None);
    assert_eq!(PlugAction::Off.ask(1), PlugAsk::Switch { index: 1, on: false });
    assert_eq!(PlugAction::Status.ask(1), PlugAsk::Status { index: 1 });
}
