use oray_tools::prompt::{
    answer, ask, ask_secret, check_value, choose_from, fill_arguments, require_terminal, Asked,
    Kind, Question, Session,
};

fn ask_ok(input: &str, label: &str, default: Option<&str>) -> (String, String) {
    let mut io = Session::over(input);
    match ask(&mut io, label, default) {
        Asked::Value(value) => (value, io.out),
        _ => panic!("no value"),
    }
}

fn failure<T>(asked: Asked<T>) -> String {
    match asked {
        Asked::Failed(m) => m,
        _ => panic!("no failure"),
    }
}

#[test]
fn typed_value_is_trimmed() {
    let (value, prompt) = ask_ok("  alice@example.com \n", "Account", None);
    assert_eq!(value, "alice@example.com");
    assert_eq!(prompt, "Account: ");
}

#[test]
fn empty_line_falls_back_to_default() {
    let (value, prompt) = ask_ok("\n", "Account", Some("saved@example.com"));
    assert_eq!(value, "saved@example.com");
    assert_eq!(prompt, "Account [saved@example.com]: ");
}

#[test]
fn required_value_reasks_until_filled() {
    let (value, out) = ask_ok("\n\n42\n", "Code", None);
    assert_eq!(value, "42");
    assert_eq!(out.matches("Code: ").count(), 3);
}

#[test]
fn end_of_input_is_an_error_not_a_hang() {
    let mut io = Session::over("");
    let err = failure(ask(&mut io, "Account", None));
    assert!(err.contains("`Account`"), "{err}");
    assert!(err.contains("--help"), "{err}");
}

#[test]
fn open_input_waits_for_the_next_line() {
    let mut io = Session::new();
    assert!(matches!(ask(&mut io, "Account", None), Asked::Waiting(false)));
    io.typed("bob\n".to_string());
    assert!(matches!(ask(&mut io, "Account", None), Asked::Value(v) if v == "bob"));
    io.close();
    assert!(matches!(ask(&mut io, "Account", None), Asked::Failed(_)));
}

#[test]
fn choose_parses_a_valid_number() {
    let mut io = Session::over("2\n");
    let index = match choose_from(&mut io, "Login method", &vec!["password", "sms"]) {
        Asked::Value(i) => i,
        _ => panic!("no choice"),
    };
    assert_eq!(index, 1);
    assert!(io.out.contains("1) password"));
}

#[test]
fn choose_reasks_on_out_of_range_input() {
    let mut io = Session::over("9\nx\n1\n");
    let index = match choose_from(&mut io, "Login method", &vec!["password", "sms"]) {
        Asked::Value(i) => i,
        _ => panic!("no choice"),
    };
    assert_eq!(index, 0);
    assert_eq!(io.out.matches("between 1 and 2").count(), 2);
}

#[test]
fn choose_reports_end_of_input() {
    let mut io = Session::over("");
    let err = failure(choose_from(&mut io, "Login method", &vec!["password"]));
    assert!(err.contains("stdin ended"), "{err}");
}

#[test]
fn menus_are_numbered_from_one() {
    let mut io = Session::over("1\n");
    let _ = choose_from(&mut io, "Pick", &vec!["a", "b"]);
    assert!(io.out.starts_with("Pick:\n  1) a\n  2) b\n"), "{}", io.out);
}

#[test]
fn secrets_keep_their_spaces() {
    let mut io = Session::over(" pass word \r\n");
    match ask_secret(&mut io, "Password") {
        Asked::Value(v) => assert_eq!(v, " pass word "),
        _ => panic!("no value"),
    }
    assert!(io.out.starts_with("Password: "), "{}", io.out);
    let mut io = Session::over("\n");
    assert_eq!(failure(ask_secret(&mut io, "Password")), "no Password entered");
    let mut io = Session::new();
    assert!(matches!(ask_secret(&mut io, "Password"), Asked::Waiting(true)));
}

#[test]
fn values_are_checked_by_their_kind() {
    assert_eq!(check_value(Kind::Text, "anything"), None);
    assert_eq!(check_value(Kind::Secret, " "), None);
    assert_eq!(check_value(Kind::Mobile, "12345678901"), None);
    assert_eq!(
        check_value(Kind::Mobile, "123"),
        Some("expected a mobile number like 12345678901, got '123'".to_string())
    );
    assert_eq!(check_value(Kind::OnOff, "ON"), None);
    assert_eq!(
        check_value(Kind::OnOff, "Up"),
        Some("expected on or off, got 'up'".to_string())
    );
    assert_eq!(check_value(Kind::ClockTime, "8:05"), None);
    assert!(check_value(Kind::ClockTime, "24:00").unwrap().ends_with("got '24:00'"));
    assert_eq!(check_value(Kind::Number(10), "10"), None);
    assert_eq!(
        check_value(Kind::Number(10), "11"),
        Some("expected a number, got '11'".to_string())
    );
    assert_eq!(
        check_value(Kind::Number(u64::MAX), "18446744073709551616"),
        Some("expected a number, got '18446744073709551616'".to_string())
    );
}

fn question(name: &'static str, label: &'static str, kind: Kind) -> Question {
    Question { name, label, kind, default: None }
}

#[test]
fn unaccepted_values_are_asked_for_again() {
    let mut io = Session::over("maybe\non\n");
    let q = question("<STATE>", "LED state (on/off)", Kind::OnOff);
    assert!(matches!(answer(&mut io, &q), Asked::Value(v) if v == "on"));
    assert_eq!(io.out.matches("LED state (on/off): ").count(), 2);
    assert!(io.out.contains("expected on or off, got 'maybe'"), "{}", io.out);
}

#[test]
fn nobody_is_asked_without_a_terminal() {
    let qs = vec![
        question("<SN>", "Device serial number (SN)", Kind::Text),
        question("<ID>", "Timer id", Kind::Number(u64::MAX)),
    ];
    let err = require_terminal(&qs, "oray-tools x <sn> <id>", false).unwrap_err();
    assert!(err.contains("<SN>, <ID>"), "{err}");
    assert!(err.contains("oray-tools x <sn> <id>"), "{err}");
    assert!(require_terminal(&qs, "oray-tools x", true).is_ok());
    assert!(require_terminal(&Vec::new(), "oray-tools x", false).is_ok());

    let mut io = Session::over("a\n1\n");
    assert!(matches!(fill_arguments(&mut io, &qs, "oray-tools x", false), Asked::Failed(_)));
    assert_eq!(io.out, "", "nothing is shown before the failure");
    match fill_arguments(&mut io, &qs, "oray-tools x", true) {
        Asked::Value(values) => assert_eq!(values, vec!["a", "1"]),
        _ => panic!("no values"),
    }
}

#[test]
fn conversations_show_again_what_was_shown() {
    let talk = |io: &mut Session| {
        let qs = vec![
            Question { name: "<STATE>", label: "State", kind: Kind::OnOff, default: None },
            Question { name: "<PASSWORD>", label: "Password", kind: Kind::Secret, default: None },
        ];
        fill_arguments(io, &qs, "x", true)
    };
    let typed = ["\n", "maybe\n", "on\n", "secret\n"];
    let mut shown = String::new();
    for n in 0..=typed.len() {
        let mut io = Session::new();
        for line in &typed[..n] {
            io.typed(line.to_string());
        }
        let asked = talk(&mut io);
        assert!(io.out.starts_with(&shown), "{:?} after {shown:?}", io.out);
        match asked {
            Asked::Waiting(secret) => assert_eq!(secret, n == 3),
            Asked::Value(values) => assert_eq!((n, values), (4, vec!["on".into(), "secret".into()])),
            Asked::Failed(m) => panic!("{m}"),
        }
        shown = io.out;
    }
    // An input that ends shows no less either.
    let mut io = Session::new();
    io.typed("\n".to_string());
    io.close();
    assert!(matches!(talk(&mut io), Asked::Failed(_)));
    assert_eq!(io.out, "State: State: ");
}
