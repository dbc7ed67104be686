use oray_tools::config::Config;
use oray_tools::logs::{filter_logs_by_index, LogQuery, LogStep, StatusLog, StatusLogsData};
use oray_tools::logs_cmd::{
    bounds_in_range, log_query, log_zones, log_zones_with, logs_json, logs_text_lines, Zones,
};

/// A synthetic log entry for the `--index` filter / text-render tests.
fn log(index: i32) -> StatusLog {
    StatusLog {
        event: "on".to_string(),
        status: 1,
        index,
        // 2026-09-02 01:56:44 UTC
        createtime: 1_788_314_204,
        createtime_format: "2026-09-02 09:56:44".to_string(),
    }
}

#[test]
fn logs_index_filter_without_index_keeps_everything() {
    let out = filter_logs_by_index(vec![log(0), log(1), log(0)], None);
    let kept: Vec<i32> = out.iter().map(|l| l.index).collect();
    assert_eq!(kept, vec![0, 1, 0]);
}

#[test]
fn logs_index_filter_selects_one_port() {
    let out = filter_logs_by_index(vec![log(0), log(1), log(0)], Some(1));
    let kept: Vec<i32> = out.iter().map(|l| l.index).collect();
    assert_eq!(kept, vec![1]);
}

#[test]
fn logs_index_filter_without_match_is_empty() {
    assert!(filter_logs_by_index(vec![log(0)], Some(2)).is_empty());
    assert!(filter_logs_by_index(Vec::<StatusLog>::new(), Some(0)).is_empty());
}

#[test]
fn logs_text_empty_result_gets_a_notice() {
    // The empty branch of the filtering: what a query that matched
    // nothing must print instead of staying silent.
    let empty = filter_logs_by_index(vec![log(0)], Some(9));
    assert_eq!(logs_text_lines(&empty, Some(0)), vec!["no matching events"]);
    assert_eq!(logs_text_lines(&vec![], None), vec!["no matching events"]);
}

#[test]
fn logs_text_renders_each_entry() {
    let lines = logs_text_lines(&vec![log(0), log(1)], Some(0));
    assert_eq!(
        lines,
        vec![
            "2026-09-02 01:56:44 UTC+00:00 index=0 ON on",
            "2026-09-02 01:56:44 UTC+00:00 index=1 ON on",
        ]
    );
}

#[test]
fn entries_without_a_zone_are_shown_in_the_machines() {
    let mut off = log(3);
    off.status = 0;
    off.event = "timer".to_string();
    let lines = logs_text_lines(&vec![off], None);
    assert_eq!(lines.len(), 1);
    assert!(lines[0].ends_with(" index=3 OFF timer"), "{}", lines[0]);
    assert!(lines[0].contains(" UTC"), "{}", lines[0]);
}

#[test]
fn logs_json_adds_the_shown_time() {
    let value = logs_json(&vec![log(2)], Some(480)).to_value();
    let entry = &value[0];
    assert_eq!(entry["event"], "on");
    assert_eq!(entry["status"], 1);
    assert_eq!(entry["index"], 2);
    assert_eq!(entry["createtime"], 1_788_314_204);
    assert_eq!(entry["createtime_format"], "2026-09-02 09:56:44");
    assert_eq!(entry["createtime_tz"], "2026-09-02 09:56:44 UTC+08:00");
    assert_eq!(entry.as_object().unwrap().len(), 6);
    assert_eq!(logs_json(&vec![], None).compact(), "[]");
}

// ------------------------------------------------------------------ the search

fn at(t: i64, index: i32) -> StatusLog {
    StatusLog {
        event: format!("e{t}"),
        status: 0,
        index,
        createtime: t,
        createtime_format: String::new(),
    }
}

fn page(n: u32, total: u32, times: &[i64]) -> StatusLogsData {
    StatusLogsData {
        logs: times.iter().map(|t| at(*t, (*t % 2) as i32)).collect(),
        currentpage: n,
        totalpage: total,
        name: "demo plug".to_string(),
        sn: "100000000001".to_string(),
        count: 50,
    }
}

/// Runs a query against a server with these pages, newest first; also tells
/// which pages were fetched.
fn run(query: &LogQuery, pages: &[Vec<i64>]) -> (Vec<i64>, Vec<u32>) {
    let total = pages.len() as u32;
    let mut have: Vec<(u32, StatusLogsData)> = Vec::new();
    let mut fetched: Vec<u32> = Vec::new();
    loop {
        match query.step(&have) {
            LogStep::Fetch(n) => {
                assert!(!fetched.contains(&n), "page {n} was fetched already");
                fetched.push(n);
                let times: Vec<i64> =
                    pages.get(n as usize - 1).cloned().unwrap_or_default();
                have.push((n, page(n, total, &times)));
            }
            LogStep::Done(logs) => {
                return (logs.iter().map(|l| l.createtime).collect(), fetched);
            }
        }
    }
}

fn server() -> Vec<Vec<i64>> {
    // 16 pages of 4 entries: 1000, 999, ... 937.
    (0..16i64)
        .map(|p| (0..4i64).map(|k| 1000 - 4 * p - k).collect())
        .collect()
}

fn query(start: Option<i64>, end: Option<i64>) -> LogQuery {
    LogQuery { start, end, page: None, index: None }
}

#[test]
fn a_query_without_bounds_reads_all_pages() {
    let (times, fetched) = run(&query(None, None), &server());
    assert_eq!(times, (937..=1000).rev().collect::<Vec<i64>>());
    assert_eq!(fetched.len(), 16);
}

#[test]
fn a_window_reads_few_pages_and_misses_nothing() {
    for (s, e) in [(950i64, 960i64), (999, 1000), (937, 938), (940, 940), (900, 2000)] {
        let (times, fetched) = run(&query(Some(s), Some(e)), &server());
        let expected: Vec<i64> = (937..=1000).rev().filter(|t| *t >= s && *t <= e).collect();
        assert_eq!(times, expected, "{s}..{e}");
        if e - s < 20 {
            assert!(fetched.len() <= 12, "{s}..{e} fetched {fetched:?}");
        }
    }
}

#[test]
fn a_window_beside_the_history_is_empty() {
    assert_eq!(run(&query(Some(2000), None), &server()).0, Vec::<i64>::new());
    assert_eq!(run(&query(None, Some(900)), &server()).0, Vec::<i64>::new());
}

#[test]
fn a_single_page_is_filtered_alone() {
    let q = LogQuery { start: Some(994), end: None, page: Some(2), index: None };
    let (times, fetched) = run(&q, &server());
    assert_eq!(times, vec![996, 995, 994]);
    assert_eq!(fetched, vec![2]);
}

#[test]
fn a_port_narrows_the_answer() {
    let q = LogQuery { start: Some(995), end: None, page: None, index: Some(1) };
    assert_eq!(run(&q, &server()).0, vec![999, 997, 995]);
}

#[test]
fn further_pages_do_not_change_an_answer() {
    let q = query(Some(950), Some(960));
    let pages: Vec<(u32, StatusLogsData)> = server()
        .iter()
        .enumerate()
        .map(|(i, t)| (i as u32 + 1, page(i as u32 + 1, 16, t)))
        .collect();
    let times: Vec<i64> = match q.step(&pages) {
        LogStep::Done(logs) => logs.iter().map(|l| l.createtime).collect(),
        LogStep::Fetch(n) => panic!("asked for page {n}"),
    };
    assert_eq!(times, run(&q, &server()).0);
}

// ------------------------------------------------------------------- the window

fn some(s: &str) -> Option<String> {
    Some(s.to_string())
}

#[test]
fn windows_are_read_in_the_zone_of_the_bounds() {
    let q = log_query(&some("2026-09-01"), &some("2026-09-01"), Some(4), Some(1), 0, Some(480))
        .unwrap();
    assert_eq!(q.end.unwrap() - q.start.unwrap(), 86399);
    assert_eq!(q.page, Some(4));
    assert_eq!(q.index, Some(1));
    let q = log_query(&some("2h"), &None, None, None, 1_800_000_000, None).unwrap();
    assert_eq!(q.start, Some(1_800_000_000 - 7200));
    assert_eq!(q.end, None);
}

#[test]
fn windows_that_end_before_they_start_are_refused() {
    match log_query(&some("1h"), &some("2h"), None, None, 1_800_000_000, None) {
        Err(m) => assert_eq!(
            m,
            "invalid window: --since starts after --until ends (since=Some(\"1h\"), until=Some(\"2h\"))"
        ),
        Ok(_) => panic!("accepted"),
    }
    // Quotes in a bound are escaped.
    match log_query(&some("1h"), &some("\"2h"), None, None, 0, Some(0)) {
        Err(m) => assert!(m.starts_with("invalid time bound '\"2h'"), "{m}"),
        Ok(_) => panic!("accepted"),
    }
}

#[test]
fn zones_of_a_query() {
    let mut cfg = Config::default();
    let ago = some("2h");
    let day = some("2026-09-01");
    assert_eq!(
        log_zones_with(&cfg, None, &ago, &None, 60),
        Ok(Zones { bounds: None, display: None })
    );
    assert_eq!(
        log_zones_with(&cfg, None, &ago, &day, 60),
        Ok(Zones { bounds: Some(60), display: Some(60) })
    );
    assert_eq!(
        log_zones_with(&cfg, Some(480), &ago, &None, 60),
        Ok(Zones { bounds: None, display: Some(480) })
    );
    cfg.tz = some("-05:00");
    assert_eq!(
        log_zones_with(&cfg, None, &day, &None, 60),
        Ok(Zones { bounds: Some(-300), display: Some(-300) })
    );
    assert_eq!(log_zones(&cfg, None, &day, &None), log_zones_with(&cfg, None, &day, &None, 0));
    cfg.tz = some("bogus");
    assert!(log_zones_with(&cfg, None, &None, &None, 60).is_err());
    assert!(log_zones_with(&cfg, Some(0), &None, &None, 60).is_ok());
}

#[test]
fn bounds_out_of_range_are_told_apart() {
    assert!(bounds_in_range(&some("2h"), &None, 0));
    assert!(bounds_in_range(&None, &some("2026-09-01"), 0));
    assert!(!bounds_in_range(&some("9223372036854775807d"), &None, 0));
    assert!(!bounds_in_range(&None, &some("9223372036854775807s"), -9));
}
