//! The status-change history of a plug: finding the pages of a time window.
//!
//! The server hands out pages, newest first, and knows no time window. The
//! search below asks for page 1, which tells how many pages there are, finds
//! the first and the last page that can meet the window by bisection, and
//! reads only those. It does no I/O: [`LogQuery::step`] looks at the pages
//! that were fetched so far and says which page to fetch next, or, when all
//! that it needs is there, which entries the query selects.

use crate::schedule;
use vstd::prelude::*;

verus! {

broadcast use vstd::seq_lib::group_seq_properties;

/// One status-log entry.
#[derive(Debug)]
pub struct StatusLog {
    pub event: String,
    pub status: i32,
    pub index: i32,
    /// Unix timestamp in seconds.
    pub createtime: i64,
    pub createtime_format: String,
}

/// One page of status-log entries.
#[derive(Debug)]
pub struct StatusLogsData {
    pub logs: Vec<StatusLog>,
    pub currentpage: u32,
    pub totalpage: u32,
    pub name: String,
    pub sn: String,
    pub count: u32,
}

/// A query for status-log entries.
pub struct LogQuery {
    /// Only entries at or after this.
    pub start: Option<i64>,
    /// Only entries at or before this.
    pub end: Option<i64>,
    /// Only this page, in place of the search for the window.
    pub page: Option<u32>,
    /// Only entries of this port.
    pub index: Option<usize>,
}

/// What a query needs next.
pub enum LogStep {
    /// Fetch this page.
    Fetch(u32),
    /// All pages that matter were there: the entries that the query selects.
    Done(Vec<StatusLog>),
}

/// What a query needs next.
pub enum StepView {
    Fetch(int),
    Done(Seq<StatusLog>),
}

impl View for LogStep {
    type V = StepView;

    open spec fn view(&self) -> StepView {
        match self {
            LogStep::Fetch(page) => StepView::Fetch(*page as int),
            LogStep::Done(logs) => StepView::Done(logs@),
        }
    }
}

/// A copy of an entry.
fn copy_log(log: &StatusLog) -> (r: StatusLog)
    ensures
        r == *log,
{
    StatusLog {
        event: log.event.clone(),
        status: log.status,
        index: log.index,
        createtime: log.createtime,
        createtime_format: log.createtime_format.clone(),
    }
}

// ------------------------------------------------------------------- filters

/// Whether an entry lies in the window.
pub open spec fn in_window(log: StatusLog, start: Option<i64>, end: Option<i64>) -> bool {
    &&& start matches Some(s) ==> log.createtime >= s
    &&& end matches Some(e) ==> log.createtime <= e
}

/// The entries of `logs` that lie in the window.
pub open spec fn windowed(logs: Seq<StatusLog>, start: Option<i64>, end: Option<i64>) -> Seq<
    StatusLog,
> {
    logs.filter(|l: StatusLog| in_window(l, start, end))
}

/// Whether an entry is one of the port, where one is asked for.
pub open spec fn on_port(log: StatusLog, index: Option<usize>) -> bool {
    index matches Some(port) ==> log.index == schedule::signed(port as u64)
}

/// The entries of `logs` that are of the port.
pub open spec fn of_port(logs: Seq<StatusLog>, index: Option<usize>) -> Seq<StatusLog> {
    match index {
        Some(_) => logs.filter(|l: StatusLog| on_port(l, index)),
        None => logs,
    }
}

/// Appends the entries of `logs` that lie in the window.
fn push_windowed(
    out: &mut Vec<StatusLog>,
    logs: &Vec<StatusLog>,
    start: Option<i64>,
    end: Option<i64>,
)
    ensures
        final(out)@ == old(out)@ + windowed(logs@, start, end),
{
    let ghost keep = |l: StatusLog| in_window(l, start, end);
    let mut i: usize = 0;
    proof {
        assert(logs@.take(0).filter(keep) =~= Seq::<StatusLog>::empty()) by {
            reveal(Seq::filter);
        }
        assert(out@ + Seq::<StatusLog>::empty() =~= out@);
    }
    while i < logs.len()
        invariant
            i <= logs@.len(),
            keep == (|l: StatusLog| in_window(l, start, end)),
            out@ == old(out)@ + logs@.take(i as int).filter(keep),
        decreases logs.len() - i,
    {
        let t: i64 = logs[i].createtime;
        let late = match start {
            Some(s) => t >= s,
            None => true,
        };
        let early = match end {
            Some(e) => t <= e,
            None => true,
        };
        proof {
            reveal(Seq::filter);
            assert(logs@.take(i + 1).drop_last() =~= logs@.take(i as int));
        }
        if late && early {
            out.push(copy_log(&logs[i]));
            proof {
                assert(out@ =~= old(out)@ + logs@.take(i + 1).filter(keep));
            }
        }
        i = i + 1;
    }
    proof {
        assert(logs@.take(logs@.len() as int) =~= logs@);
    }
}

/// Client-side port filter: without `index` nothing is dropped, with it only
/// the entries that the plug reported for that port stay.
pub fn filter_logs_by_index(logs: Vec<StatusLog>, index: Option<usize>) -> (r: Vec<StatusLog>)
    ensures
        r@ == of_port(logs@, index),
{
    match index {
        None => logs,
        Some(port) => {
            let wanted: i64 = schedule::to_signed(port as u64);
            let ghost keep = |l: StatusLog| on_port(l, index);
            let mut out: Vec<StatusLog> = Vec::new();
            let mut i: usize = 0;
            proof {
                assert(logs@.take(0).filter(keep) =~= Seq::<StatusLog>::empty()) by {
                    reveal(Seq::filter);
                }
            }
            while i < logs.len()
                invariant
                    i <= logs@.len(),
                    index == Some(port),
                    wanted == schedule::signed(port as u64),
                    keep == (|l: StatusLog| on_port(l, index)),
                    out@ == logs@.take(i as int).filter(keep),
                decreases logs.len() - i,
            {
                proof {
                    reveal(Seq::filter);
                    assert(logs@.take(i + 1).drop_last() =~= logs@.take(i as int));
                }
                if logs[i].index as i64 == wanted {
                    out.push(copy_log(&logs[i]));
                }
                i = i + 1;
            }
            proof {
                assert(logs@.take(logs@.len() as int) =~= logs@);
            }
            out
        },
    }
}

// -------------------------------------------------------------------- search

/// The page of that number among those that were fetched.
pub open spec fn page_of(pages: Seq<(u32, StatusLogsData)>, page: int) -> Option<StatusLogsData>
    decreases pages.len(),
{
    if pages.len() == 0 {
        None
    } else if pages[0].0 == page {
        Some(pages[0].1)
    } else {
        page_of(pages.drop_first(), page)
    }
}

/// The place of the page of that number among those that were fetched.
fn find_page(pages: &Vec<(u32, StatusLogsData)>, page: u64) -> (r: Option<usize>)
    ensures
        match r {
            Some(i) => i < pages@.len() && page_of(pages@, page as int) == Some(pages@[i as int].1),
            None => page_of(pages@, page as int) is None,
        },
{
    let mut i: usize = 0;
    proof {
        assert(pages@.skip(0) =~= pages@);
    }
    while i < pages.len()
        invariant
            i <= pages@.len(),
            page_of(pages@, page as int) == page_of(pages@.skip(i as int), page as int),
        decreases pages.len() - i,
    {
        if pages[i].0 as u64 == page {
            return Some(i);
        }
        proof {
            assert(pages@.skip(i as int).drop_first() =~= pages@.skip(i + 1));
        }
        i = i + 1;
    }
    None
}

/// Whether the oldest entry of a page is at or before `end`.
pub open spec fn reaches_back(data: StatusLogsData, end: i64) -> bool {
    data.logs@.len() > 0 && data.logs@.last().createtime <= end
}

/// Whether the newest entry of a page is at or after `start`.
pub open spec fn reaches_up(data: StatusLogsData, start: i64) -> bool {
    data.logs@.len() > 0 && data.logs@[0].createtime >= start
}

/// What a search for a page came to.
pub enum Probe {
    /// A page that has to be looked at was not fetched yet.
    Need(int),
    /// The page, where there is one.
    At(Option<int>),
}

/// Bisection for the first page of `lo..=hi` that reaches back to `end`,
/// where `found` is the best one so far.
pub open spec fn low_probe(
    pages: Seq<(u32, StatusLogsData)>,
    end: i64,
    lo: int,
    hi: int,
    found: Option<int>,
) -> Probe
    decreases hi + 1 - lo,
{
    if lo > hi {
        Probe::At(found)
    } else {
        let mid = lo + (hi - lo) / 2;
        match page_of(pages, mid) {
            None => Probe::Need(mid),
            Some(data) => if reaches_back(data, end) {
                low_probe(pages, end, lo, mid - 1, Some(mid))
            } else {
                low_probe(pages, end, mid + 1, hi, found)
            },
        }
    }
}

/// Bisection for the last page of `lo..=hi` that reaches up to `start`, where
/// `found` is the best one so far.
pub open spec fn high_probe(
    pages: Seq<(u32, StatusLogsData)>,
    start: i64,
    lo: int,
    hi: int,
    found: Option<int>,
) -> Probe
    decreases hi + 1 - lo,
{
    if lo > hi {
        Probe::At(found)
    } else {
        let mid = lo + (hi - lo) / 2;
        match page_of(pages, mid) {
            None => Probe::Need(mid),
            Some(data) => if reaches_up(data, start) {
                high_probe(pages, start, mid + 1, hi, Some(mid))
            } else {
                high_probe(pages, start, lo, mid - 1, found)
            },
        }
    }
}

/// The entries of the pages `lo..=hi` that lie in the window.
pub open spec fn gathered(
    pages: Seq<(u32, StatusLogsData)>,
    lo: int,
    hi: int,
    start: Option<i64>,
    end: Option<i64>,
) -> StepView
    decreases hi + 1 - lo,
{
    if lo > hi {
        StepView::Done(seq![])
    } else {
        match page_of(pages, lo) {
            None => StepView::Fetch(lo),
            Some(data) => match gathered(pages, lo + 1, hi, start, end) {
                StepView::Fetch(page) => StepView::Fetch(page),
                StepView::Done(rest) => StepView::Done(windowed(data.logs@, start, end) + rest),
            },
        }
    }
}

/// How many pages there are, told by page 1.
pub open spec fn page_count(first: StatusLogsData) -> int {
    if first.totalpage == 0 {
        1
    } else {
        first.totalpage as int
    }
}

/// The first page that can meet the window.
pub open spec fn lowest(pages: Seq<(u32, StatusLogsData)>, end: Option<i64>, total: int) -> Probe {
    match end {
        None => Probe::At(Some(1)),
        Some(e) => low_probe(pages, e, 1, total, None),
    }
}

/// The last page that can meet the window.
pub open spec fn highest(
    pages: Seq<(u32, StatusLogsData)>,
    start: Option<i64>,
    total: int,
) -> Probe {
    match start {
        None => Probe::At(Some(total)),
        Some(s) => high_probe(pages, s, 1, total, None),
    }
}

/// The entries of the window, before the port filter.
pub open spec fn window_step(
    pages: Seq<(u32, StatusLogsData)>,
    start: Option<i64>,
    end: Option<i64>,
) -> StepView {
    match page_of(pages, 1) {
        None => StepView::Fetch(1),
        Some(first) => {
            let total = page_count(first);
            match lowest(pages, end, total) {
                Probe::Need(page) => StepView::Fetch(page),
                Probe::At(low) => match highest(pages, start, total) {
                    Probe::Need(page) => StepView::Fetch(page),
                    Probe::At(high) => match (low, high) {
                        (Some(lo), Some(hi)) => gathered(pages, lo, hi, start, end),
                        _ => StepView::Done(seq![]),
                    },
                },
            }
        },
    }
}

/// The entries of one page in the window, before the port filter.
pub open spec fn single_step(
    pages: Seq<(u32, StatusLogsData)>,
    page: int,
    start: Option<i64>,
    end: Option<i64>,
) -> StepView {
    match page_of(pages, page) {
        None => StepView::Fetch(page),
        Some(data) => StepView::Done(windowed(data.logs@, start, end)),
    }
}

/// `step` with the port filter applied to what it selects.
pub open spec fn narrowed(step: StepView, index: Option<usize>) -> StepView {
    match step {
        StepView::Fetch(page) => StepView::Fetch(page),
        StepView::Done(logs) => StepView::Done(of_port(logs, index)),
    }
}

impl LogQuery {
    /// What the query needs next, given the pages that were fetched so far.
    pub open spec fn next(&self, pages: Seq<(u32, StatusLogsData)>) -> StepView {
        narrowed(
            match self.page {
                Some(page) => single_step(pages, page as int, self.start, self.end),
                None => window_step(pages, self.start, self.end),
            },
            self.index,
        )
    }
}

/// A page that is asked for lies between the bounds of the search.
proof fn probes_in_range(
    pages: Seq<(u32, StatusLogsData)>,
    bound: i64,
    lo: int,
    hi: int,
    found: Option<int>,
)
    ensures
        low_probe(pages, bound, lo, hi, found) matches Probe::Need(p) ==> lo <= p <= hi && page_of(
            pages,
            p,
        ) is None,
        low_probe(pages, bound, lo, hi, found) matches Probe::At(Some(p)) ==> lo <= p <= hi
            || found == Some(p),
        high_probe(pages, bound, lo, hi, found) matches Probe::Need(p) ==> lo <= p <= hi
            && page_of(pages, p) is None,
        high_probe(pages, bound, lo, hi, found) matches Probe::At(Some(p)) ==> lo <= p <= hi
            || found == Some(p),
    decreases hi + 1 - lo,
{
    if lo <= hi {
        let mid = lo + (hi - lo) / 2;
        probes_in_range(pages, bound, lo, mid - 1, Some(mid));
        probes_in_range(pages, bound, mid + 1, hi, found);
        probes_in_range(pages, bound, lo, mid - 1, found);
        probes_in_range(pages, bound, mid + 1, hi, Some(mid));
    }
}

/// What a search for a page came to.
enum Outcome {
    Need(u64),
    At(Option<u64>),
}

/// What a search for a page came to.
spec fn outcome_view(o: Outcome) -> Probe {
    match o {
        Outcome::Need(page) => Probe::Need(page as int),
        Outcome::At(Some(page)) => Probe::At(Some(page as int)),
        Outcome::At(None) => Probe::At(None),
    }
}

/// Bisection for the first page that reaches back to `end`.
fn find_low(pages: &Vec<(u32, StatusLogsData)>, end: i64, total: u64) -> (r: Outcome)
    requires
        total <= u32::MAX,
    ensures
        outcome_view(r) == low_probe(pages@, end, 1, total as int, None),
{
    let mut lo: u64 = 1;
    let mut hi: u64 = total;
    let mut found: Option<u64> = None;
    while lo <= hi
        invariant
            total <= u32::MAX,
            1 <= lo <= total + 1,
            hi <= total,
            low_probe(pages@, end, 1, total as int, None) == low_probe(
                pages@,
                end,
                lo as int,
                hi as int,
                match found {
                    Some(p) => Some(p as int),
                    None => None,
                },
            ),
        decreases hi + 1 - lo,
    {
        let mid: u64 = lo + (hi - lo) / 2;
        match find_page(pages, mid) {
            None => {
                return Outcome::Need(mid);
            },
            Some(i) => {
                let logs = &pages[i].1.logs;
                if logs.len() > 0 && logs[logs.len() - 1].createtime <= end {
                    found = Some(mid);
                    hi = mid - 1;
                } else {
                    lo = mid + 1;
                }
            },
        }
    }
    Outcome::At(found)
}

/// Bisection for the last page that reaches up to `start`.
fn find_high(pages: &Vec<(u32, StatusLogsData)>, start: i64, total: u64) -> (r: Outcome)
    requires
        total <= u32::MAX,
    ensures
        outcome_view(r) == high_probe(pages@, start, 1, total as int, None),
{
    let mut lo: u64 = 1;
    let mut hi: u64 = total;
    let mut found: Option<u64> = None;
    while lo <= hi
        invariant
            total <= u32::MAX,
            1 <= lo <= total + 1,
            hi <= total,
            high_probe(pages@, start, 1, total as int, None) == high_probe(
                pages@,
                start,
                lo as int,
                hi as int,
                match found {
                    Some(p) => Some(p as int),
                    None => None,
                },
            ),
        decreases hi + 1 - lo,
    {
        let mid: u64 = lo + (hi - lo) / 2;
        match find_page(pages, mid) {
            None => {
                return Outcome::Need(mid);
            },
            Some(i) => {
                let logs = &pages[i].1.logs;
                if logs.len() > 0 && logs[0].createtime >= start {
                    found = Some(mid);
                    lo = mid + 1;
                } else {
                    hi = mid - 1;
                }
            },
        }
    }
    Outcome::At(found)
}

/// Reads the pages `lo..=hi`.
fn gather(
    pages: &Vec<(u32, StatusLogsData)>,
    lo: u64,
    hi: u64,
    start: Option<i64>,
    end: Option<i64>,
) -> (r: LogStep)
    requires
        hi <= u32::MAX,
    ensures
        r@ == gathered(pages@, lo as int, hi as int, start, end),
{
    let mut out: Vec<StatusLog> = Vec::new();
    let mut page: u64 = lo;
    proof {
        assert forall|rest: Seq<StatusLog>| #[trigger] (Seq::<StatusLog>::empty() + rest)
            == rest by {
            assert(Seq::<StatusLog>::empty() + rest =~= rest);
        }
    }
    while page <= hi
        invariant
            hi <= u32::MAX,
            page <= hi + 1 || page == lo,
            gathered(pages@, lo as int, hi as int, start, end) == (match gathered(
                pages@,
                page as int,
                hi as int,
                start,
                end,
            ) {
                StepView::Fetch(p) => StepView::Fetch(p),
                StepView::Done(rest) => StepView::Done(out@ + rest),
            }),
        decreases hi + 1 - page,
    {
        match find_page(pages, page) {
            None => {
                return LogStep::Fetch(page as u32);
            },
            Some(i) => {
                let ghost before = out@;
                push_windowed(&mut out, &pages[i].1.logs, start, end);
                proof {
                    match gathered(pages@, page + 1, hi as int, start, end) {
                        StepView::Done(rest) => {
                            let w = windowed(pages@[i as int].1.logs@, start, end);
                            assert(before + (w + rest) =~= (before + w) + rest);
                        },
                        StepView::Fetch(_) => {},
                    }
                }
            },
        }
        page = page + 1;
    }
    proof {
        assert(out@ + Seq::<StatusLog>::empty() =~= out@);
    }
    LogStep::Done(out)
}

/// The entries of the window, before the port filter.
fn window(pages: &Vec<(u32, StatusLogsData)>, start: Option<i64>, end: Option<i64>) -> (r: LogStep)
    ensures
        r@ == window_step(pages@, start, end),
{
    match find_page(pages, 1) {
        None => LogStep::Fetch(1),
        Some(i) => {
            let told: u64 = pages[i].1.totalpage as u64;
            let total: u64 = if told == 0 {
                1
            } else {
                told
            };
            let low = match end {
                None => Outcome::At(Some(1)),
                Some(e) => find_low(pages, e, total),
            };
            proof {
                if let Some(e) = end {
                    probes_in_range(pages@, e, 1, total as int, None);
                }
                if let Some(s) = start {
                    probes_in_range(pages@, s, 1, total as int, None);
                }
            }
            match low {
                Outcome::Need(page) => LogStep::Fetch(page as u32),
                Outcome::At(low) => {
                    let high = match start {
                        None => Outcome::At(Some(total)),
                        Some(s) => find_high(pages, s, total),
                    };
                    match high {
                        Outcome::Need(page) => LogStep::Fetch(page as u32),
                        Outcome::At(high) => match (low, high) {
                            (Some(lo), Some(hi)) => gather(pages, lo, hi, start, end),
                            _ => LogStep::Done(Vec::new()),
                        },
                    }
                },
            }
        },
    }
}

impl LogQuery {
    /// What the query needs next, given the pages that were fetched so far,
    /// each with its number: the page to fetch, or the entries that it
    /// selects, newest first.
    pub fn step(&self, pages: &Vec<(u32, StatusLogsData)>) -> (r: LogStep)
        ensures
            r@ == self.next(pages@),
    {
        let found = match self.page {
            Some(page) => match find_page(pages, page as u64) {
                None => LogStep::Fetch(page),
                Some(i) => {
                    let mut out: Vec<StatusLog> = Vec::new();
                    push_windowed(&mut out, &pages[i].1.logs, self.start, self.end);
                    proof {
                        assert(out@ =~= windowed(pages@[i as int].1.logs@, self.start, self.end));
                    }
                    LogStep::Done(out)
                },
            },
            None => window(pages, self.start, self.end),
        };
        match found {
            LogStep::Fetch(page) => LogStep::Fetch(page),
            LogStep::Done(logs) => LogStep::Done(filter_logs_by_index(logs, self.index)),
        }
    }
}

// ---------------------------------------------------------------------- laws

/// A page that reading needs was not fetched yet, and lies in the range.
proof fn gathered_in_range(
    pages: Seq<(u32, StatusLogsData)>,
    lo: int,
    hi: int,
    start: Option<i64>,
    end: Option<i64>,
)
    ensures
        gathered(pages, lo, hi, start, end) matches StepView::Fetch(p) ==> lo <= p <= hi && page_of(
            pages,
            p,
        ) is None,
    decreases hi + 1 - lo,
{
    if lo <= hi {
        gathered_in_range(pages, lo + 1, hi, start, end);
    }
}

/// A query never asks for a page that was fetched already, and never for one
/// past the last: each page is fetched once at most.
pub proof fn query_fetches_new_pages(q: LogQuery, pages: Seq<(u32, StatusLogsData)>)
    ensures
        q.next(pages) matches StepView::Fetch(p) ==> page_of(pages, p) is None && match q.page {
            Some(page) => p == page,
            None => match page_of(pages, 1) {
                Some(first) => 1 <= p <= page_count(first),
                None => p == 1,
            },
        },
{
    if q.page is None {
        if let Some(first) = page_of(pages, 1) {
            let total = page_count(first);
            if let Some(e) = q.end {
                probes_in_range(pages, e, 1, total, None);
            }
            if let Some(s) = q.start {
                probes_in_range(pages, s, 1, total, None);
            }
            match (lowest(pages, q.end, total), highest(pages, q.start, total)) {
                (Probe::At(Some(lo)), Probe::At(Some(hi))) => {
                    gathered_in_range(pages, lo, hi, q.start, q.end);
                },
                _ => {},
            }
        }
    }
}

/// Whether `more` holds every page that `pages` holds.
pub open spec fn extends(
    more: Seq<(u32, StatusLogsData)>,
    pages: Seq<(u32, StatusLogsData)>,
) -> bool {
    forall|p: int| #[trigger]
        page_of(pages, p) is Some ==> page_of(more, p) == page_of(pages, p)
}

/// A search that came to an end comes to the same end with more pages.
proof fn probes_stable(
    more: Seq<(u32, StatusLogsData)>,
    pages: Seq<(u32, StatusLogsData)>,
    bound: i64,
    lo: int,
    hi: int,
    found: Option<int>,
)
    requires
        extends(more, pages),
    ensures
        low_probe(pages, bound, lo, hi, found) is At ==> low_probe(more, bound, lo, hi, found)
            == low_probe(pages, bound, lo, hi, found),
        high_probe(pages, bound, lo, hi, found) is At ==> high_probe(more, bound, lo, hi, found)
            == high_probe(pages, bound, lo, hi, found),
    decreases hi + 1 - lo,
{
    if lo <= hi {
        let mid = lo + (hi - lo) / 2;
        assert(page_of(pages, mid) is Some ==> page_of(more, mid) == page_of(pages, mid));
        probes_stable(more, pages, bound, lo, mid - 1, Some(mid));
        probes_stable(more, pages, bound, mid + 1, hi, found);
        probes_stable(more, pages, bound, lo, mid - 1, found);
        probes_stable(more, pages, bound, mid + 1, hi, Some(mid));
    }
}

/// Reading that came to an end comes to the same end with more pages.
proof fn gathered_stable(
    more: Seq<(u32, StatusLogsData)>,
    pages: Seq<(u32, StatusLogsData)>,
    lo: int,
    hi: int,
    start: Option<i64>,
    end: Option<i64>,
)
    requires
        extends(more, pages),
    ensures
        gathered(pages, lo, hi, start, end) is Done ==> gathered(more, lo, hi, start, end)
            == gathered(pages, lo, hi, start, end),
    decreases hi + 1 - lo,
{
    if lo <= hi {
        assert(page_of(pages, lo) is Some ==> page_of(more, lo) == page_of(pages, lo));
        gathered_stable(more, pages, lo + 1, hi, start, end);
    }
}

/// What a query selects does not depend on pages that it did not ask for: an
/// answer stays the answer when more pages are known.
pub proof fn answer_is_stable(
    q: LogQuery,
    pages: Seq<(u32, StatusLogsData)>,
    more: Seq<(u32, StatusLogsData)>,
)
    requires
        extends(more, pages),
        q.next(pages) is Done,
    ensures
        q.next(more) == q.next(pages),
{
    assert(page_of(pages, 1) is Some ==> page_of(more, 1) == page_of(pages, 1));
    match q.page {
        Some(page) => {
            assert(page_of(pages, page as int) is Some ==> page_of(more, page as int) == page_of(
                pages,
                page as int,
            ));
        },
        None => {
            let first = page_of(pages, 1)->Some_0;
            let total = page_count(first);
            if let Some(e) = q.end {
                probes_stable(more, pages, e, 1, total, None);
            }
            if let Some(s) = q.start {
                probes_stable(more, pages, s, 1, total, None);
            }
            match (lowest(pages, q.end, total), highest(pages, q.start, total)) {
                (Probe::At(Some(lo)), Probe::At(Some(hi))) => {
                    gathered_stable(more, pages, lo, hi, q.start, q.end);
                },
                _ => {},
            }
        },
    }
}

/// The entries of a page, none where it was not fetched.
pub open spec fn page_logs(pages: Seq<(u32, StatusLogsData)>, page: int) -> Seq<StatusLog> {
    match page_of(pages, page) {
        Some(data) => data.logs@,
        None => seq![],
    }
}

/// The entries of the pages `lo..=hi`, one after the other.
pub open spec fn entries(pages: Seq<(u32, StatusLogsData)>, lo: int, hi: int) -> Seq<StatusLog>
    decreases hi + 1 - lo,
{
    if lo > hi {
        seq![]
    } else {
        page_logs(pages, lo) + entries(pages, lo + 1, hi)
    }
}

/// Whether every page was fetched.
pub open spec fn complete(pages: Seq<(u32, StatusLogsData)>, total: int) -> bool {
    forall|p: int| 1 <= p <= total ==> #[trigger] page_of(pages, p) is Some
}

/// Whether no page is empty.
pub open spec fn none_empty(pages: Seq<(u32, StatusLogsData)>, total: int) -> bool {
    forall|p: int| 1 <= p <= total ==> (#[trigger] page_logs(pages, p)).len() > 0
}

/// Whether the entries run from newer to older, within each page and from
/// page to page.
pub open spec fn newest_first(pages: Seq<(u32, StatusLogsData)>, total: int) -> bool {
    forall|p: int, i: int, q: int, j: int|
        #![trigger page_logs(pages, p)[i], page_logs(pages, q)[j]]
        1 <= p <= q <= total && 0 <= i < page_logs(pages, p).len() && 0 <= j < page_logs(
            pages,
            q,
        ).len() && (p < q || i <= j) ==> page_logs(pages, p)[i].createtime >= page_logs(
            pages,
            q,
        )[j].createtime
}

/// With newest-first pages, bisection finds the first page that reaches back.
proof fn low_probe_is_first(
    pages: Seq<(u32, StatusLogsData)>,
    total: int,
    end: i64,
    lo: int,
    hi: int,
    found: Option<int>,
)
    requires
        complete(pages, total),
        none_empty(pages, total),
        newest_first(pages, total),
        1 <= lo,
        hi <= total,
    ensures
        match low_probe(pages, end, lo, hi, found) {
            Probe::Need(_) => false,
            Probe::At(r) => {
                ||| r == found && forall|q: int|
                    lo <= q <= hi ==> !reaches_back((#[trigger] page_of(pages, q))->Some_0, end)
                ||| r matches Some(p) && lo <= p <= hi && reaches_back(
                    page_of(pages, p)->Some_0,
                    end,
                ) && forall|q: int|
                    lo <= q < p ==> !reaches_back((#[trigger] page_of(pages, q))->Some_0, end)
            },
        },
    decreases hi + 1 - lo,
{
    if lo <= hi {
        let mid = lo + (hi - lo) / 2;
        assert(page_of(pages, mid) is Some);
        if reaches_back(page_of(pages, mid)->Some_0, end) {
            low_probe_is_first(pages, total, end, lo, mid - 1, Some(mid));
        } else {
            low_probe_is_first(pages, total, end, mid + 1, hi, found);
            assert forall|q: int| lo <= q <= mid implies !reaches_back(
                (#[trigger] page_of(pages, q))->Some_0,
                end,
            ) by {
                let a = page_logs(pages, q);
                let b = page_logs(pages, mid);
                assert(page_of(pages, q) is Some);
                assert(a[a.len() - 1].createtime >= b[b.len() - 1].createtime);
            }
        }
    }
}

/// With newest-first pages, bisection finds the last page that reaches up.
proof fn high_probe_is_last(
    pages: Seq<(u32, StatusLogsData)>,
    total: int,
    start: i64,
    lo: int,
    hi: int,
    found: Option<int>,
)
    requires
        complete(pages, total),
        none_empty(pages, total),
        newest_first(pages, total),
        1 <= lo,
        hi <= total,
    ensures
        match high_probe(pages, start, lo, hi, found) {
            Probe::Need(_) => false,
            Probe::At(r) => {
                ||| r == found && forall|q: int|
                    lo <= q <= hi ==> !reaches_up((#[trigger] page_of(pages, q))->Some_0, start)
                ||| r matches Some(p) && lo <= p <= hi && reaches_up(
                    page_of(pages, p)->Some_0,
                    start,
                ) && forall|q: int|
                    p < q <= hi ==> !reaches_up((#[trigger] page_of(pages, q))->Some_0, start)
            },
        },
    decreases hi + 1 - lo,
{
    if lo <= hi {
        let mid = lo + (hi - lo) / 2;
        assert(page_of(pages, mid) is Some);
        if reaches_up(page_of(pages, mid)->Some_0, start) {
            high_probe_is_last(pages, total, start, mid + 1, hi, Some(mid));
        } else {
            high_probe_is_last(pages, total, start, lo, mid - 1, found);
            assert forall|q: int| mid <= q <= hi implies !reaches_up(
                (#[trigger] page_of(pages, q))->Some_0,
                start,
            ) by {
                let a = page_logs(pages, q);
                let b = page_logs(pages, mid);
                assert(page_of(pages, q) is Some);
                assert(b[0].createtime >= a[0].createtime);
            }
        }
    }
}

/// The window filter goes through concatenation.
proof fn windowed_concat(
    a: Seq<StatusLog>,
    b: Seq<StatusLog>,
    start: Option<i64>,
    end: Option<i64>,
)
    ensures
        windowed(a + b, start, end) == windowed(a, start, end) + windowed(b, start, end),
{
    Seq::filter_distributes_over_add(a, b, |l: StatusLog| in_window(l, start, end));
}

/// Entries outside the window leave nothing.
proof fn windowed_nothing(logs: Seq<StatusLog>, start: Option<i64>, end: Option<i64>)
    requires
        forall|i: int| 0 <= i < logs.len() ==> !in_window(#[trigger] logs[i], start, end),
    ensures
        windowed(logs, start, end) == Seq::<StatusLog>::empty(),
    decreases logs.len(),
{
    reveal(Seq::filter);
    if logs.len() > 0 {
        windowed_nothing(logs.drop_last(), start, end);
    }
}

/// Whether no entry of a page lies in the window.
spec fn misses(
    pages: Seq<(u32, StatusLogsData)>,
    page: int,
    start: Option<i64>,
    end: Option<i64>,
) -> bool {
    forall|i: int|
        0 <= i < page_logs(pages, page).len() ==> !in_window(
            #[trigger] page_logs(pages, page)[i],
            start,
            end,
        )
}

/// Pages outside the window leave nothing.
proof fn entries_nothing(
    pages: Seq<(u32, StatusLogsData)>,
    lo: int,
    hi: int,
    start: Option<i64>,
    end: Option<i64>,
)
    requires
        forall|p: int| lo <= p <= hi ==> #[trigger] misses(pages, p, start, end),
    ensures
        windowed(entries(pages, lo, hi), start, end) == Seq::<StatusLog>::empty(),
    decreases hi + 1 - lo,
{
    if lo > hi {
        windowed_nothing(seq![], start, end);
    } else {
        assert(misses(pages, lo, start, end));
        windowed_nothing(page_logs(pages, lo), start, end);
        entries_nothing(pages, lo + 1, hi, start, end);
        windowed_concat(page_logs(pages, lo), entries(pages, lo + 1, hi), start, end);
    }
}

/// The entries of a range of pages, parted at a page.
proof fn entries_parted(pages: Seq<(u32, StatusLogsData)>, lo: int, at: int, hi: int)
    requires
        lo <= at <= hi + 1,
    ensures
        entries(pages, lo, hi) == entries(pages, lo, at - 1) + entries(pages, at, hi),
    decreases at - lo,
{
    if lo < at {
        entries_parted(pages, lo + 1, at, hi);
        assert(page_logs(pages, lo) + (entries(pages, lo + 1, at - 1) + entries(pages, at, hi))
            =~= (page_logs(pages, lo) + entries(pages, lo + 1, at - 1)) + entries(pages, at, hi));
    } else {
        assert(entries(pages, lo, at - 1) + entries(pages, at, hi) =~= entries(pages, at, hi));
    }
}

/// Reading fetched pages gives their entries in the window.
proof fn gathered_is_windowed(
    pages: Seq<(u32, StatusLogsData)>,
    lo: int,
    hi: int,
    start: Option<i64>,
    end: Option<i64>,
)
    requires
        forall|p: int| lo <= p <= hi ==> #[trigger] page_of(pages, p) is Some,
    ensures
        gathered(pages, lo, hi, start, end) == StepView::Done(
            windowed(entries(pages, lo, hi), start, end),
        ),
    decreases hi + 1 - lo,
{
    if lo > hi {
        windowed_nothing(seq![], start, end);
    } else {
        assert(page_of(pages, lo) is Some);
        gathered_is_windowed(pages, lo + 1, hi, start, end);
        windowed_concat(page_logs(pages, lo), entries(pages, lo + 1, hi), start, end);
    }
}

/// Pages on both sides of `lo..=hi` that the window misses add nothing.
proof fn only_middle_matters(
    pages: Seq<(u32, StatusLogsData)>,
    total: int,
    lo: int,
    hi: int,
    start: Option<i64>,
    end: Option<i64>,
)
    requires
        1 <= lo <= total,
        1 <= hi <= total,
        forall|p: int| 1 <= p < lo ==> #[trigger] misses(pages, p, start, end),
        forall|p: int| hi < p <= total ==> #[trigger] misses(pages, p, start, end),
    ensures
        windowed(entries(pages, 1, total), start, end) == windowed(
            entries(pages, lo, hi),
            start,
            end,
        ),
{
    let none = Seq::<StatusLog>::empty();
    if lo > hi {
        entries_nothing(pages, 1, total, start, end);
        entries_nothing(pages, lo, hi, start, end);
    } else {
        entries_parted(pages, 1, lo, total);
        entries_parted(pages, lo, hi + 1, total);
        entries_nothing(pages, 1, lo - 1, start, end);
        entries_nothing(pages, hi + 1, total, start, end);
        windowed_concat(entries(pages, 1, lo - 1), entries(pages, lo, total), start, end);
        windowed_concat(entries(pages, lo, hi), entries(pages, hi + 1, total), start, end);
        let w = windowed(entries(pages, lo, hi), start, end);
        assert(none + (w + none) =~= w);
    }
}

/// The search misses nothing and adds nothing: once all pages are known, what
/// a window query selects is what filtering every entry of every page would
/// select. The pages have to run newest first, and none may be empty unless
/// it is the only one.
pub proof fn search_equals_full_filter(q: LogQuery, pages: Seq<(u32, StatusLogsData)>)
    requires
        q.page is None,
        page_of(pages, 1) is Some,
        complete(pages, page_count(page_of(pages, 1)->Some_0)),
        newest_first(pages, page_count(page_of(pages, 1)->Some_0)),
        none_empty(pages, page_count(page_of(pages, 1)->Some_0)) || page_count(
            page_of(pages, 1)->Some_0,
        ) == 1,
    ensures
        q.next(pages) == StepView::Done(
            of_port(
                windowed(
                    entries(pages, 1, page_count(page_of(pages, 1)->Some_0)),
                    q.start,
                    q.end,
                ),
                q.index,
            ),
        ),
{
    let total = page_count(page_of(pages, 1)->Some_0);
    let (start, end) = (q.start, q.end);
    if !none_empty(pages, total) {
        // One page, and that one is empty.
        let p = choose|p: int| 1 <= p <= total && (#[trigger] page_logs(pages, p)).len() == 0;
        assert(p == 1);
        assert(entries(pages, 2, 1) =~= seq![]);
        assert(entries(pages, 1, 1) =~= seq![]);
        windowed_nothing(seq![], start, end);
        gathered_is_windowed(pages, 1, 1, start, end);
        reveal_with_fuel(low_probe, 3);
        reveal_with_fuel(high_probe, 3);
        assert(window_step(pages, start, end) == StepView::Done(Seq::<StatusLog>::empty()));
    } else {
        if let Some(e) = end {
            low_probe_is_first(pages, total, e, 1, total, None);
        }
        if let Some(s) = start {
            high_probe_is_last(pages, total, s, 1, total, None);
        }
        let low = lowest(pages, end, total)->At_0;
        let high = highest(pages, start, total)->At_0;
        assert forall|p: int|
            1 <= p <= total && (match low {
                Some(lo) => p < lo,
                None => true,
            }) implies #[trigger] misses(pages, p, start, end) by {
            let logs = page_logs(pages, p);
            assert(page_of(pages, p) is Some);
            assert(!reaches_back(page_of(pages, p)->Some_0, end->Some_0));
            assert forall|i: int| 0 <= i < logs.len() implies !in_window(
                #[trigger] logs[i],
                start,
                end,
            ) by {
                assert(page_logs(pages, p)[i].createtime >= page_logs(
                    pages,
                    p,
                )[logs.len() - 1].createtime);
            }
        }
        assert forall|p: int|
            1 <= p <= total && (match high {
                Some(hi) => p > hi,
                None => true,
            }) implies #[trigger] misses(pages, p, start, end) by {
            let logs = page_logs(pages, p);
            assert(page_of(pages, p) is Some);
            assert(!reaches_up(page_of(pages, p)->Some_0, start->Some_0));
            assert forall|i: int| 0 <= i < logs.len() implies !in_window(
                #[trigger] logs[i],
                start,
                end,
            ) by {
                assert(page_logs(pages, p)[0].createtime >= page_logs(pages, p)[i].createtime);
            }
        }
        match (low, high) {
            (Some(lo), Some(hi)) => {
                only_middle_matters(pages, total, lo, hi, start, end);
                gathered_is_windowed(pages, lo, hi, start, end);
            },
            _ => {
                entries_nothing(pages, 1, total, start, end);
            },
        }
    }
}

/// What the pages of a search leave lies in the window.
proof fn gathered_in_window(
    pages: Seq<(u32, StatusLogsData)>,
    lo: int,
    hi: int,
    start: Option<i64>,
    end: Option<i64>,
)
    ensures
        gathered(pages, lo, hi, start, end) matches StepView::Done(logs) ==> forall|i: int|
            0 <= i < logs.len() ==> in_window(#[trigger] logs[i], start, end),
    decreases hi + 1 - lo,
{
    if lo <= hi {
        gathered_in_window(pages, lo + 1, hi, start, end);
        if let Some(data) = page_of(pages, lo) {
            let keep = |l: StatusLog| in_window(l, start, end);
            assert forall|i: int| 0 <= i < windowed(data.logs@, start, end).len() implies in_window(
                #[trigger] windowed(data.logs@, start, end)[i],
                start,
                end,
            ) by {
                data.logs@.lemma_filter_pred(keep, i);
            }
        }
    }
}

/// Every entry that a query selects was written at or after its start, at or
/// before its end, and at its port, as far as these are given.
pub proof fn selected_entries_meet_the_query(q: LogQuery, pages: Seq<(u32, StatusLogsData)>, at: int)
    requires
        q.next(pages) is Done,
        0 <= at < q.next(pages)->Done_0.len(),
    ensures
        q.start matches Some(s) ==> s <= q.next(pages)->Done_0[at].createtime,
        q.end matches Some(e) ==> q.next(pages)->Done_0[at].createtime <= e,
        q.index matches Some(port) ==> port <= i32::MAX ==> q.next(pages)->Done_0[at].index
            == port,
{
    let step = match q.page {
        Some(page) => single_step(pages, page as int, q.start, q.end),
        None => window_step(pages, q.start, q.end),
    };
    let found = step->Done_0;
    assert forall|i: int| 0 <= i < found.len() implies in_window(#[trigger] found[i], q.start, q.end) by {
        match q.page {
            Some(page) => {
                let keep = |l: StatusLog| in_window(l, q.start, q.end);
                let data = page_of(pages, page as int)->Some_0;
                data.logs@.lemma_filter_pred(keep, i);
            },
            None => {
                let total = page_count(page_of(pages, 1)->Some_0);
                match (lowest(pages, q.end, total), highest(pages, q.start, total)) {
                    (Probe::At(Some(lo)), Probe::At(Some(hi))) => {
                        gathered_in_window(pages, lo, hi, q.start, q.end);
                    },
                    _ => {},
                }
            },
        }
    }
    if q.index is Some {
        let port = |l: StatusLog| on_port(l, q.index);
        let kept = found.filter(port);
        found.lemma_filter_pred(port, at);
        assert(kept.contains(kept[at]));
        found.lemma_filter_contains_rev(port, kept[at]);
    }
}

/// A query for one page loses nothing of that page that it asks for.
pub proof fn page_queries_select_all_they_ask_for(
    q: LogQuery,
    pages: Seq<(u32, StatusLogsData)>,
    page: u32,
    at: int,
)
    requires
        q.page == Some(page),
        page_of(pages, page as int) is Some,
        0 <= at < page_of(pages, page as int)->Some_0.logs@.len(),
        ({
            let log = page_of(pages, page as int)->Some_0.logs@[at];
            &&& q.start matches Some(s) ==> s <= log.createtime
            &&& q.end matches Some(e) ==> log.createtime <= e
            &&& q.index matches Some(port) ==> log.index == port
        }),
    ensures
        q.next(pages) matches StepView::Done(logs) && logs.contains(
            page_of(pages, page as int)->Some_0.logs@[at],
        ),
{
    let logs = page_of(pages, page as int)->Some_0.logs@;
    let keep = |l: StatusLog| in_window(l, q.start, q.end);
    let port = |l: StatusLog| on_port(l, q.index);
    let found = logs.filter(keep);
    logs.lemma_filter_contains(keep, at);
    if q.index is Some {
        let k = choose|k: int| 0 <= k < found.len() && found[k] == logs[at];
        found.lemma_filter_contains(port, k);
    }
}

/// A page that reports no page count is the only one.
pub proof fn uncounted_pages_are_alone(first: StatusLogsData)
    ensures
        page_count(first) == 1 <==> first.totalpage <= 1,
        first.totalpage >= 1 ==> page_count(first) == first.totalpage,
{
}

} // verus!
