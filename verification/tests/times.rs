use oray_tools::config::Config;
use oray_tools::times::{
    ago_in_range, bound_in_range, human_time, machine_offset_min, now, now_millis, parse_ago_secs,
    parse_local_time, parse_on_off, parse_tz, render_local, render_ts, resolve_time_bound_tz,
    resolve_time_bound_with, resolve_tz, resolve_tz_with, tz_label, tz_warning,
};

#[test]
fn offsets_carry_one_sign() {
    for two in ["++8h", "+-0h", "-+5h", "--5h", "++480min", "+-0min", "++08:00", "+08:+00", "+08:-00"]
    {
        assert_eq!(parse_tz(two), None, "{two}");
    }
    assert_eq!(parse_tz("+8h"), Some(480));
    assert_eq!(parse_tz("-0h"), Some(0));
}

#[test]
fn clock_times_carry_no_sign() {
    for signed in ["+8", "-0", "+8:05", "8:+05", "-0:00"] {
        assert_eq!(parse_local_time(signed), None, "{signed}");
    }
    assert_eq!(parse_local_time("8"), Some(8));
}

#[test]
fn parse_local_time_clock() {
    assert_eq!(parse_local_time("19:25"), Some(19 * 60 + 25));
    assert_eq!(parse_local_time("8:05"), Some(8 * 60 + 5));
    assert_eq!(parse_local_time("08:00"), Some(480));
    assert_eq!(parse_local_time("0:00"), Some(0));
    assert_eq!(parse_local_time("23:59"), Some(1439));
}

#[test]
fn parse_local_time_minutes() {
    assert_eq!(parse_local_time("480"), Some(480));
    assert_eq!(parse_local_time("0"), Some(0));
    assert_eq!(parse_local_time("1439"), Some(1439));
}

#[test]
fn parse_local_time_invalid() {
    assert!(parse_local_time("25:00").is_none());
    assert!(parse_local_time("12:60").is_none());
    assert!(parse_local_time("1440").is_none());
    assert!(parse_local_time("19:25:00").is_none());
    assert!(parse_local_time("abc").is_none());
    assert!(parse_local_time("").is_none());
    assert!(parse_local_time("-1").is_none());
}

#[test]
fn local_times_may_be_spaced_out() {
    assert_eq!(parse_local_time(" 7 : 30 "), Some(450));
    assert_eq!(parse_local_time("\t90\n"), Some(90));
}

#[test]
fn parse_tz_units() {
    assert_eq!(parse_tz("+8h"), Some(480));
    assert_eq!(parse_tz("-5h"), Some(-300));
    assert_eq!(parse_tz("+8H"), Some(480));
    assert_eq!(parse_tz("+480min"), Some(480));
    assert_eq!(parse_tz("-300min"), Some(-300));
    assert_eq!(parse_tz("+8min"), Some(8));
}

#[test]
fn parse_tz_colon_form() {
    assert_eq!(parse_tz("+08:00"), Some(480));
    assert_eq!(parse_tz("-05:30"), Some(-330));
    assert_eq!(parse_tz("-08:20"), Some(-500));
    assert_eq!(parse_tz("+8:00"), Some(480));
}

#[test]
fn parse_tz_invalid() {
    // Bare numbers are rejected: ambiguous between minutes and hours.
    assert!(parse_tz("8").is_none());
    assert!(parse_tz("480").is_none());
    assert!(parse_tz("330").is_none());
    assert!(parse_tz("+8").is_none()); // unit required unless HH:MM
    assert!(parse_tz("-5").is_none());
    assert!(parse_tz("bogus").is_none());
    assert!(parse_tz("+25h").is_none());
    assert!(parse_tz("+08:99").is_none());
    assert!(parse_tz("-300").is_none());
    assert!(parse_tz("+1500min").is_none());
    assert!(parse_tz("+1440min").is_none());
    assert!(parse_tz("+24h").is_none());
    assert!(parse_tz("-").is_none());
}

#[test]
fn offsets_are_read_back_from_their_names() {
    for min in [-1439i64, -330, -60, -1, 0, 1, 59, 480, 1439] {
        let name = tz_label(min);
        assert_eq!(parse_tz(name.strip_prefix("UTC").unwrap()), Some(min), "{name}");
    }
}

#[test]
fn format_offsets() {
    assert_eq!(tz_label(480), "UTC+08:00");
    assert_eq!(tz_label(-330), "UTC-05:30");
    assert_eq!(tz_label(0), "UTC+00:00");
}

#[test]
fn render_ts_uses_requested_offset() {
    // 1788314270 == 2026-09-02 01:57:50 UTC (09:57:50 in UTC+8).
    assert_eq!(
        render_ts(1788314270, Some(0)),
        "2026-09-02 01:57:50 UTC+00:00"
    );
    assert_eq!(
        render_ts(1788314270, Some(480)),
        "2026-09-02 09:57:50 UTC+08:00"
    );
    assert_eq!(
        render_ts(1788314270, Some(-300)),
        "2026-09-01 20:57:50 UTC-05:00"
    );
}

#[test]
fn render_ts_negative_epoch_falls_back_to_raw() {
    assert!(render_ts(i64::MIN, Some(0)).ends_with("(epoch)"));
}

#[test]
fn times_beyond_the_calendar_are_shown_raw_everywhere() {
    assert_eq!(render_ts(i64::MIN, None), format!("{} (epoch)", i64::MIN));
    assert_eq!(render_ts(i64::MAX, Some(480)), format!("{} (epoch)", i64::MAX));
    assert_eq!(human_time(i64::MAX), format!("{}", i64::MAX));
}

#[test]
fn offsets_of_a_day_or_more_count_as_none() {
    // The time is that of UTC; the label still names what was asked for.
    assert_eq!(render_ts(0, Some(1440)), "1970-01-01 00:00:00 UTC+24:00");
    assert_eq!(render_ts(0, Some(1439)), "1970-01-01 23:59:00 UTC+23:59");
}

#[test]
fn the_machine_zone_is_shown_with_its_offset() {
    assert_eq!(
        render_local(0, Some(("1970-01-01 05:30:00".to_string(), 19800))),
        "1970-01-01 05:30:00 UTC+05:30"
    );
    assert_eq!(
        render_local(0, Some(("1969-12-31 20:30:00".to_string(), -12600))),
        "1969-12-31 20:30:00 UTC-03:30"
    );
    assert_eq!(render_local(5, None), "5 (epoch)");
    // Whatever the zone of this machine, the label is its offset then.
    let shown = render_ts(1788314270, None);
    assert!(shown.contains(" UTC"), "{shown}");
    let offset = parse_tz(shown.split("UTC").nth(1).unwrap()).unwrap();
    let plain = shown.split(" UTC").next().unwrap().to_string();
    assert_eq!(render_ts(1788314270, Some(offset)).split(" UTC").next().unwrap(), plain);
}

#[test]
fn human_times_are_rfc3339() {
    assert_eq!(human_time(0), "1970-01-01T00:00:00+00:00");
    assert_eq!(human_time(1788314270), "2026-09-02T01:57:50+00:00");
    assert_eq!(human_time(-1), "1969-12-31T23:59:59+00:00");
}

#[test]
fn resolve_prefers_arg_over_config() {
    let mut cfg = Config::default();
    cfg.tz = Some("-05:00".to_string());
    assert_eq!(resolve_tz(&cfg, Some(480)).unwrap(), 480);
    assert_eq!(resolve_tz(&cfg, None).unwrap(), -300);
}

#[test]
fn resolve_invalid_config_tz_errors() {
    let mut cfg = Config::default();
    cfg.tz = Some("bogus".to_string());
    assert!(resolve_tz(&cfg, None).is_err());
}

#[test]
fn bad_config_offsets_are_quoted() {
    let mut cfg = Config::default();
    cfg.tz = Some("8".to_string());
    assert_eq!(
        resolve_tz_with(&cfg, None, 60).unwrap_err(),
        "invalid `tz` in config: '8' (use a signed offset like +8h / +480min / +08:00)"
    );
    // An argument makes the configured value irrelevant.
    assert_eq!(resolve_tz_with(&cfg, Some(-1), 60), Ok(-1));
}

#[test]
fn the_machine_offset_is_the_last_resort() {
    let cfg = Config::default();
    assert_eq!(resolve_tz_with(&cfg, None, 345), Ok(345));
    let machine = machine_offset_min();
    assert!(-1440 < machine && machine < 1440);
    assert_eq!(resolve_tz(&cfg, None), Ok(machine));
    let warning = tz_warning(&cfg, None, 480).unwrap();
    assert!(
        warning.starts_with(
            "warning: no --tz or config `tz` set; assuming the machine's local offset 480 min (UTC+08:00) for plug-local times"
        ),
        "{warning}"
    );
    assert_eq!(tz_warning(&cfg, Some(480), 480), None);
}

#[test]
fn ago_bounds() {
    assert_eq!(parse_ago_secs("30s"), Some(30));
    assert_eq!(parse_ago_secs("5m"), Some(300));
    assert_eq!(parse_ago_secs("2h"), Some(7200));
    assert_eq!(parse_ago_secs("1d"), Some(86400));
    assert_eq!(parse_ago_secs("bogus"), None);
    assert_eq!(parse_ago_secs("1x"), None);
    assert_eq!(parse_ago_secs("2026-09-01"), None);
    assert_eq!(parse_ago_secs("0"), None);
}

#[test]
fn durations_beyond_the_range_are_told_apart() {
    assert!(ago_in_range("2h"));
    assert!(ago_in_range("not a duration"));
    assert!(ago_in_range("9223372036854775807s"));
    assert!(!ago_in_range("9223372036854775807m"));
    // A count that no 64 bits hold is no duration at all.
    assert!(ago_in_range("99999999999999999999d"));
    assert_eq!(parse_ago_secs("99999999999999999999d"), None);
    assert_eq!(parse_ago_secs("-5m"), None);
    assert_eq!(parse_ago_secs("5\u{e9}"), None);
    assert!(bound_in_range("9223372036854775807s", 0));
    assert!(!bound_in_range("9223372036854775807s", -2));
}

#[test]
fn ago_resolution_is_relative_to_now() {
    let now = 1_800_000_000;
    assert_eq!(
        resolve_time_bound_tz("2h", true, now, None).unwrap(),
        now - 7200
    );
    assert_eq!(
        resolve_time_bound_tz("1d", false, now, None).unwrap(),
        now - 86400
    );
}

#[test]
fn absolute_time_equivalence() {
    let now = 1_800_000_000;
    let with_secs = resolve_time_bound_tz("2026-09-01 08:30:00", true, now, None).unwrap();
    let no_secs = resolve_time_bound_tz("2026-09-01 08:30", true, now, None).unwrap();
    let t_form = resolve_time_bound_tz("2026-09-01T08:30:00", true, now, None).unwrap();
    assert_eq!(with_secs, no_secs);
    assert_eq!(with_secs, t_form);
}

#[test]
fn date_only_expands_to_full_day() {
    let now = 1_800_000_000;
    let start = resolve_time_bound_tz("2026-09-01", true, now, None).unwrap();
    let midnight = resolve_time_bound_tz("2026-09-01 00:00:00", true, now, None).unwrap();
    assert_eq!(start, midnight);
    let end = resolve_time_bound_tz("2026-09-01", false, now, None).unwrap();
    let end_of_day = resolve_time_bound_tz("2026-09-01 23:59:59", false, now, None).unwrap();
    assert_eq!(end, end_of_day);
}

#[test]
fn bare_dates_span_a_day_at_every_offset() {
    for tz in [-720i64, 0, 330, 840] {
        let start = resolve_time_bound_tz("2026-02-28", true, 0, Some(tz)).unwrap();
        let end = resolve_time_bound_tz("2026-02-28", false, 0, Some(tz)).unwrap();
        assert_eq!(end - start, 86399);
    }
}

#[test]
fn invalid_time_bound_is_an_error() {
    let now = 1_800_000_000;
    assert!(resolve_time_bound_tz("not-a-time", true, now, None).is_err());
    assert!(resolve_time_bound_tz("2026-13-01", true, now, None).is_err());
    assert!(resolve_time_bound_tz("", true, now, None).is_err());
}

#[test]
fn bad_bounds_are_quoted() {
    assert_eq!(
        resolve_time_bound_tz("soon", true, 0, Some(0)).unwrap_err(),
        "invalid time bound 'soon': use an ago duration like 30m/2h/1d, or an absolute time like 2026-09-01 or 2026-09-01 08:30[:00]"
    );
}

#[test]
fn tz_offset_moves_absolute_bound() {
    let now = 1_800_000_000;
    let east8 = resolve_time_bound_tz("2026-09-01 08:00:00", true, now, Some(480)).unwrap();
    let utc = resolve_time_bound_tz("2026-09-01 08:00:00", true, now, Some(0)).unwrap();
    // 08:00 UTC+8 is 00:00 UTC.
    assert_eq!(east8 - utc, -480 * 60);
    // A bare date in UTC+8 starts 16:00 UTC the previous day.
    let day = resolve_time_bound_tz("2026-09-01", true, now, Some(480)).unwrap();
    let day_utc = resolve_time_bound_tz("2026-09-01 00:00:00", true, now, Some(0)).unwrap();
    assert_eq!(day - day_utc, -480 * 60);
}

#[test]
fn absolute_bounds_have_exact_timestamps() {
    // 2026-09-02 01:57:50 UTC.
    assert_eq!(
        resolve_time_bound_tz("2026-09-02 01:57:50", true, 0, Some(0)),
        Ok(1788314270)
    );
    assert_eq!(
        resolve_time_bound_tz(" 2026-09-02T09:57 ", false, 0, Some(480)),
        Ok(1788314220)
    );
}

#[test]
fn times_that_a_zone_skips_are_read_in_utc() {
    let at = |value: &str, tz, local| resolve_time_bound_with(value, true, 100, tz, local);
    let wall = "2026-09-02 01:57:50";
    assert_eq!(at(wall, None, None), Ok(1788314270));
    assert_eq!(at(wall, None, Some(7)), Ok(7));
    assert_eq!(at(wall, Some(60), Some(7)), Ok(1788314270 - 3600));
    assert_eq!(at("1m", None, Some(7)), Ok(40));
    assert!(at("soon", None, Some(7)).is_err());
}

#[test]
fn the_clock_runs() {
    let before = chrono::Utc::now().timestamp();
    let seconds = now();
    let millis = now_millis();
    let after = chrono::Utc::now().timestamp_millis();
    assert!(before <= seconds);
    assert!(seconds * 1000 <= millis && millis <= after);
}

#[test]
fn parse_on_off_variants() {
    assert!(parse_on_off("on").unwrap());
    assert!(parse_on_off("1").unwrap());
    assert!(!parse_on_off("off").unwrap());
    assert!(!parse_on_off("0").unwrap());
    assert!(parse_on_off("OFF").is_ok_and(|v| !v));
    assert!(parse_on_off("maybe").is_err());
}

#[test]
fn unclear_switch_states_are_quoted_in_lower_case() {
    assert_eq!(parse_on_off("MayBe"), Err("expected on or off, got 'maybe'".to_string()));
    assert_eq!(parse_on_off("True"), Ok(true));
    assert_eq!(parse_on_off("FALSE"), Ok(false));
    assert!(parse_on_off(" on").is_err());
}

#[test]
fn rendered_times_are_read_back() {
    // The ends are those of the years that are written with four digits.
    for epoch in [
        -62167219200i64 + 86340, -1, 0, 951782400, 1788314270, 253402214399, 253402300799 - 86340,
    ] {
        for tz in [-1439i64, -300, 0, 480, 1439] {
            let shown = render_ts(epoch, Some(tz));
            for lower in [true, false] {
                assert_eq!(
                    resolve_time_bound_tz(&shown[..19], lower, 7, Some(tz)),
                    Ok(epoch),
                    "{shown}"
                );
            }
        }
    }
}

#[test]
fn bare_dates_start_at_midnight() {
    for date in ["0000-01-01", "1969-12-31", "2026-09-01", "2026-9-1", "9999-12-31", "+12345-01-02"] {
        let midnight = format!("{date} 00:00:00");
        for tz in [-1439i64, 0, 480, 1439] {
            let start = resolve_time_bound_tz(date, true, 5, Some(tz)).unwrap();
            for lower in [true, false] {
                assert_eq!(resolve_time_bound_tz(&midnight, lower, 9, Some(tz)), Ok(start));
            }
            assert_eq!(resolve_time_bound_tz(date, false, 9, Some(tz)), Ok(start + 86399));
            assert_eq!(resolve_time_bound_tz(date, true, 9, Some(0)), Ok(start + 60 * tz));
        }
    }
}
