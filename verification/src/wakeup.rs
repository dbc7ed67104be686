//! Wakeup devices: smart plugs and other power hardware.
//!
//! Device listing lives here; plug-specific controls live in [`crate::plug`].

use crate::error::{Error, Result};
use crate::text;
use crate::trace;
use crate::trace::{Exchange, Request, RequestView, Traced, TracedError, TracedResult};
use crate::url;
use serde_json::Error as JsonError;
use vstd::prelude::*;
use vstd::string::*;

verus! {

broadcast use vstd::seq_lib::group_seq_properties;

/// A wakeup device (smart plug or power hardware).
#[derive(Debug)]
pub struct WakeupDevice {
    pub device_id: u64,
    pub sn: String,
    pub mac: String,
    pub owner_id: u64,
    pub name: String,
    /// The `type` of the device.
    pub kind: u32,
    pub model: String,
    pub service_type: u32,
    pub create_time: String,
    pub isenable: bool,
    pub device_type: String,
    pub hardwareid: u64,
    /// Free-form memo.
    pub description: Option<String>,
    pub remote_ids: Vec<u64>,
    pub hardware_type: String,
    /// Remote devices this hardware is bound to.
    pub remotes: Vec<WakeupRemoteRef>,
    /// Number of switchable outlets.
    pub outletcount: u32,
    pub delays: Vec<Delay>,
}

/// A remote device that hardware is bound to.
#[derive(Debug, Clone, Copy, PartialEq, Eq, Structural)]
pub struct WakeupRemoteRef {
    pub remote_id: u64,
}

/// A delay of an outlet.
#[derive(Debug, Clone, Copy, PartialEq, Eq, Structural)]
pub struct Delay {
    pub delay: u32,
}

/// A page of devices.
#[derive(Debug)]
pub struct WakeupDevicesResponse {
    pub devices: Vec<WakeupDevice>,
}

/// The default page size of `/wakeup/devices`, and the number of devices that
/// [`WakeupApi::find`] can scan.
pub const DEVICE_LIST_LIMIT: usize = 100;

/// The largest page that this client asks for.
pub const MAX_DEVICE_LIMIT: usize = 10_000;

/// The page size that is sent for a requested one.
pub open spec fn sent_limit(limit: int) -> int {
    if limit == 0 {
        DEVICE_LIST_LIMIT as int
    } else if limit > MAX_DEVICE_LIMIT {
        MAX_DEVICE_LIMIT as int
    } else {
        limit
    }
}

/// The page size that is sent for a requested one: the default for 0, and
/// [`MAX_DEVICE_LIMIT`] at most.
pub fn effective_device_limit(limit: usize) -> (r: usize)
    ensures
        r == sent_limit(limit as int),
{
    if limit == 0 {
        DEVICE_LIST_LIMIT
    } else if limit > MAX_DEVICE_LIMIT {
        MAX_DEVICE_LIMIT
    } else {
        limit
    }
}

// ------------------------------------------------------------------------ URLs

/// The query of a device list.
pub open spec fn device_query(offset: int, limit: int, sn: Option<Seq<char>>) -> Seq<
    (Seq<char>, Seq<char>),
> {
    let page = seq![
        ("offset"@, text::dec(offset as nat)),
        ("limit"@, text::dec(sent_limit(limit) as nat)),
    ];
    match sn {
        Some(sn) => page.push(("sn"@, sn)),
        None => page,
    }
}

/// The URL of a device list.
pub open spec fn devices_at(
    api_base: Seq<char>,
    offset: int,
    limit: int,
    sn: Option<Seq<char>>,
) -> std::result::Result<Seq<char>, Seq<char>> {
    url::query_url_by(
        url::normal_url(api_base + "/wakeup/devices"@),
        device_query(offset, limit, sn),
        "api"@,
    )
}

/// Builds `GET {api_base}/wakeup/devices?offset=..&limit=..[&sn=...]` with
/// every value percent-encoded.
pub fn device_page_url(api_base: &str, offset: u64, limit: usize, sn: Option<&str>) -> (r: Result<
    String,
>)
    ensures
        url::is_url(
            r,
            devices_at(api_base@, offset as int, limit as int, text::opt_str_view(sn)),
        ),
{
    let mut base = api_base.to_owned();
    base.append("/wakeup/devices");
    let offset_text = text::dec_text(offset);
    let limit_text = text::dec_text(effective_device_limit(limit) as u64);
    let mut pairs: Vec<(&str, &str)> = vec![
        ("offset", offset_text.as_str()),
        ("limit", limit_text.as_str()),
    ];
    if let Some(sn) = sn {
        pairs.push(("sn", sn));
    }
    proof {
        assert(url::pairs_view(pairs@) =~= device_query(
            offset as int,
            limit as int,
            text::opt_str_view(sn),
        ));
    }
    url::query_url(base.as_str(), &pairs, "api")
}

/// Builds `GET {api_base}/wakeup/devices?offset=0&limit=100[&sn=...]`: the
/// first page.
pub fn device_list_url(api_base: &str, sn: Option<&str>) -> (r: Result<String>)
    ensures
        url::is_url(
            r,
            devices_at(api_base@, 0, DEVICE_LIST_LIMIT as int, text::opt_str_view(sn)),
        ),
{
    device_page_url(api_base, 0, DEVICE_LIST_LIMIT, sn)
}

/// The URL that [`WakeupApi::find`] lists with: the server-side `sn` filter
/// is always present.
pub fn find_list_url(api_base: &str, sn: &str) -> (r: Result<String>)
    ensures
        url::is_url(r, devices_at(api_base@, 0, DEVICE_LIST_LIMIT as int, Some(sn@))),
{
    device_list_url(api_base, Some(sn))
}

/// How a device that was not listed is reported.
pub open spec fn not_found_text(sn: Seq<char>, scanned: int) -> Seq<char> {
    "wakeup device sn="@ + sn + " not found among "@ + text::dec(scanned as nat)
        + " devices listed (only the first "@ + text::dec(DEVICE_LIST_LIMIT as nat)
        + " are scanned)"@
}

/// The "not found" message of [`WakeupApi::find`]: how many devices were
/// looked at, and that the scan stops at the page cap.
pub fn find_not_found_message(sn: &str, scanned: usize) -> (r: String)
    ensures
        r@ == not_found_text(sn@, scanned as int),
{
    let mut s = "wakeup device sn=".to_owned();
    s.append(sn);
    s.append(" not found among ");
    text::push_dec(&mut s, scanned as u64);
    s.append(" devices listed (only the first ");
    text::push_dec(&mut s, DEVICE_LIST_LIMIT as u64);
    s.append(" are scanned)");
    s
}

// ------------------------------------------------------------------------- API

/// Whether `r` is a device-list request, or the error of a bad base.
pub open spec fn is_list_request(
    r: Result<Request>,
    url: std::result::Result<Seq<char>, Seq<char>>,
    token: Seq<char>,
) -> bool {
    match url {
        Ok(url) => r matches Ok(req) && req@ == (RequestView {
            method: "GET"@,
            url,
            headers: trace::api_headers_view(token),
            body: None,
        }),
        Err(m) => r matches Err(Error::Api(s)) && s@ == m,
    }
}

/// Where the first device with that serial number stands.
pub open spec fn device_at(devices: Seq<WakeupDevice>, sn: Seq<char>) -> Option<int>
    decreases devices.len(),
{
    if devices.len() == 0 {
        None
    } else if devices[0].sn@ == sn {
        Some(0)
    } else {
        match device_at(devices.drop_first(), sn) {
            Some(i) => Some(i + 1),
            None => None,
        }
    }
}

/// [`device_at`] finds the first such device, and misses none.
pub proof fn device_at_is_first(devices: Seq<WakeupDevice>, sn: Seq<char>)
    ensures
        match device_at(devices, sn) {
            Some(i) => 0 <= i < devices.len() && devices[i].sn@ == sn && forall|j: int|
                0 <= j < i ==> (#[trigger] devices[j]).sn@ != sn,
            None => forall|j: int| 0 <= j < devices.len() ==> (#[trigger] devices[j]).sn@ != sn,
        },
    decreases devices.len(),
{
    if devices.len() > 0 && devices[0].sn@ != sn {
        let rest = devices.drop_first();
        device_at_is_first(rest, sn);
        assert forall|j: int|
            0 <= j < devices.len() && (match device_at(devices, sn) {
                Some(i) => j < i,
                None => true,
            }) implies (#[trigger] devices[j]).sn@ != sn by {
            if j > 0 {
                assert(devices[j] == rest[j - 1]);
            }
        }
    }
}

/// Where the first device with that serial number stands.
fn find_device(devices: &Vec<WakeupDevice>, sn: &str) -> (r: Option<usize>)
    ensures
        match r {
            Some(i) => i < devices@.len() && device_at(devices@, sn@) == Some(i as int),
            None => device_at(devices@, sn@) is None,
        },
{
    let mut i: usize = 0;
    proof {
        assert(devices@.skip(0) =~= devices@);
    }
    while i < devices.len()
        invariant
            i <= devices@.len(),
            match device_at(devices@.skip(i as int), sn@) {
                Some(k) => device_at(devices@, sn@) == Some(k + i),
                None => device_at(devices@, sn@) is None,
            },
        decreases devices.len() - i,
    {
        if text::same(devices[i].sn.as_str(), sn) {
            return Some(i);
        }
        proof {
            assert(devices@.skip(i as int).drop_first() =~= devices@.skip(i + 1));
        }
        i = i + 1;
    }
    None
}

/// Whether `r` is what looking a device up in what was listed comes to.
pub open spec fn is_found(
    r: TracedResult<WakeupDevice>,
    all: TracedResult<WakeupDevicesResponse>,
    sn: Seq<char>,
) -> bool {
    match all {
        Ok(listed) => match device_at(listed.data.devices@, sn) {
            Some(i) => r matches Ok(done) && done.data == listed.data.devices@[i] && done.calls
                == listed.calls,
            None => r matches Err(e) && e.error is Api && e.error->Api_0@ == not_found_text(
                sn,
                listed.data.devices@.len() as int,
            ) && e.calls == listed.calls,
        },
        Err(e) => r == Err::<Traced<WakeupDevice>, TracedError>(e),
    }
}

/// Thin wrapper over the Oray wakeup-device HTTP endpoints.
pub struct WakeupApi {
    pub api_base: String,
}

impl WakeupApi {
    /// For the API base (e.g. `https://api-std.sunlogin.oray.com`).
    pub fn new(api_base: &str) -> (r: Self)
        ensures
            r.api_base@ == text::trim_end_char(api_base@, '/'),
    {
        WakeupApi { api_base: text::without_trailing(api_base, '/') }
    }

    /// The device-list request for a URL.
    fn list_at(url: Result<String>, token: &str) -> (r: Result<Request>)
        ensures
            match url {
                Ok(url) => r matches Ok(req) && req@ == (RequestView {
                    method: "GET"@,
                    url: url@,
                    headers: trace::api_headers_view(token@),
                    body: None,
                }),
                Err(e) => r == Err::<Request, Error>(e),
            },
    {
        match url {
            Ok(url) => Ok(
                Request { method: "GET", url, headers: trace::api_headers(token), body: None },
            ),
            Err(e) => Err(e),
        }
    }

    /// The request for a page of devices, optionally of one serial number.
    pub fn list(&self, token: &str, offset: u64, limit: usize, sn: Option<&str>) -> (r: Result<
        Request,
    >)
        ensures
            is_list_request(
                r,
                devices_at(self.api_base@, offset as int, limit as int, text::opt_str_view(sn)),
                token@,
            ),
    {
        WakeupApi::list_at(device_page_url(self.api_base.as_str(), offset, limit, sn), token)
    }

    /// The request that [`WakeupApi::found`] looks a device up in.
    pub fn find(&self, token: &str, sn: &str) -> (r: Result<Request>)
        ensures
            is_list_request(
                r,
                devices_at(self.api_base@, 0, DEVICE_LIST_LIMIT as int, Some(sn@)),
                token@,
            ),
    {
        WakeupApi::list_at(find_list_url(self.api_base.as_str(), sn), token)
    }

    /// What the answer to a device-list request comes to, given what parsing
    /// its body gave.
    pub fn listed(
        ex: Exchange,
        parsed: std::result::Result<WakeupDevicesResponse, JsonError>,
    ) -> (r: TracedResult<WakeupDevicesResponse>)
        ensures
            trace::is_expected_json(r, ex, "list wakeup devices", parsed),
    {
        trace::expect_json(ex, "list wakeup devices", parsed)
    }

    /// Looks a device up by serial number in what was listed. The list is
    /// scanned here even though the server filters, so that a server that
    /// ignores the filter changes nothing.
    pub fn found(all: TracedResult<WakeupDevicesResponse>, sn: &str) -> (r: TracedResult<
        WakeupDevice,
    >)
        ensures
            is_found(r, all, sn@),
    {
        match all {
            Ok(listed) => {
                let calls = listed.calls;
                let mut devices = listed.data.devices;
                match find_device(&devices, sn) {
                    Some(i) => Ok(Traced { data: devices.remove(i), calls }),
                    None => Err(
                        TracedError {
                            error: Error::Api(find_not_found_message(sn, devices.len())),
                            calls,
                        },
                    ),
                }
            },
            Err(e) => Err(e),
        }
    }
}

// -------------------------------------------------------------------- warnings

/// The warning that a page size was not sent as asked.
pub open spec fn capped_text(limit: int) -> Seq<char> {
    "warning: --limit "@ + text::dec(limit as nat) + " requested, "@ + text::dec(
        sent_limit(limit) as nat,
    )
        + " sent — the endpoint publishes no page size, so this client bounds its own request"@
}

/// The warning that a page came back full.
pub open spec fn full_page_text(offset: int, limit: int, shown: int) -> Seq<char> {
    "warning: a full page ("@ + text::dec(shown as nat) + " fetched at --limit "@ + text::dec(
        sent_limit(limit) as nat,
    )
        + ") and the endpoint reports no total, so more may exist — fetch the next one with `oray-tools wakeup list --offset "@
        + text::dec((offset + shown) as nat) + "`"@
}

/// The warnings that go with a page of devices.
pub open spec fn warnings_of(offset: int, limit: int, shown: int) -> Seq<Seq<char>> {
    let capped = if sent_limit(limit) != limit {
        seq![capped_text(limit)]
    } else {
        seq![]
    };
    if shown == sent_limit(limit) {
        capped.push(full_page_text(offset, limit, shown))
    } else {
        capped
    }
}

/// The warnings that go with a page of devices: a page size that was not sent
/// as asked, and a page that came back full, which may be the whole account
/// or the first of several.
pub fn page_warnings(offset: u64, limit: usize, shown: usize) -> (r: Vec<String>)
    requires
        shown == sent_limit(limit as int) ==> offset + shown <= u64::MAX,
    ensures
        text::lines_view(r@) == warnings_of(offset as int, limit as int, shown as int),
{
    let effective: usize = effective_device_limit(limit);
    let mut warnings: Vec<String> = Vec::new();
    proof {
        assert(text::lines_view(warnings@) =~= seq![]);
    }
    if effective != limit {
        let mut s = "warning: --limit ".to_owned();
        text::push_dec(&mut s, limit as u64);
        s.append(" requested, ");
        text::push_dec(&mut s, effective as u64);
        s.append(
            " sent — the endpoint publishes no page size, so this client bounds its own request",
        );
        text::add_line(&mut warnings, s);
        proof {
            assert(text::lines_view(warnings@) =~= seq![capped_text(limit as int)]);
        }
    }
    if shown == effective {
        let mut s = "warning: a full page (".to_owned();
        text::push_dec(&mut s, shown as u64);
        s.append(" fetched at --limit ");
        text::push_dec(&mut s, effective as u64);
        s.append(
            ") and the endpoint reports no total, so more may exist — fetch the next one with `oray-tools wakeup list --offset ",
        );
        text::push_dec(&mut s, offset + shown as u64);
        s.append("`");
        text::add_line(&mut warnings, s);
    }
    warnings
}

// ---------------------------------------------------------------------- laws

/// A page that is not full gets no warning, unless its size was not sent as
/// asked.
pub proof fn short_pages_are_quiet(offset: int, limit: int, shown: int)
    requires
        1 <= limit <= MAX_DEVICE_LIMIT,
        shown != limit,
    ensures
        warnings_of(offset, limit, shown).len() == 0,
{
}

/// The page size that is sent lies between 1 and the cap, and a size within
/// those bounds is sent as asked.
pub proof fn sent_limit_is_bounded(limit: int)
    requires
        0 <= limit,
    ensures
        1 <= sent_limit(limit) <= MAX_DEVICE_LIMIT,
        1 <= limit <= MAX_DEVICE_LIMIT ==> sent_limit(limit) == limit,
{
}

/// A page of devices is asked for by its offset and its size, and by a serial
/// number exactly where one is given.
pub proof fn pages_are_asked_for_as_given(offset: int, limit: int, sn: Seq<char>)
    requires
        0 <= offset,
        1 <= limit <= MAX_DEVICE_LIMIT,
    ensures
        url::carries(device_query(offset, limit, None), "offset"@, text::dec(offset as nat)),
        url::carries(device_query(offset, limit, None), "limit"@, text::dec(limit as nat)),
        url::carries(device_query(offset, limit, Some(sn)), "offset"@, text::dec(offset as nat)),
        url::carries(device_query(offset, limit, Some(sn)), "limit"@, text::dec(limit as nat)),
        url::carries(device_query(offset, limit, Some(sn)), "sn"@, sn),
        forall|i: int|
            0 <= i < device_query(offset, limit, None).len() ==> (#[trigger] device_query(
                offset,
                limit,
                None,
            )[i]).0 != "sn"@,
{
    reveal_strlit("offset");
    reveal_strlit("limit");
    reveal_strlit("sn");
    assert("offset"@.len() == 6 && "limit"@.len() == 5 && "sn"@.len() == 2);
    let all = device_query(offset, limit, None);
    let one = device_query(offset, limit, Some(sn));
    assert(all[0] == ("offset"@, text::dec(offset as nat)) && one[0] == all[0]);
    assert(all[1] == ("limit"@, text::dec(limit as nat)) && one[1] == all[1]);
    assert(one[2] == ("sn"@, sn));
}

/// A device-list request asks `/wakeup/devices` of its base with a GET, in the
/// name of the token.
pub proof fn list_requests_are_authorized(
    req: Request,
    api_base: Seq<char>,
    offset: int,
    limit: int,
    sn: Option<Seq<char>>,
    token: Seq<char>,
)
    requires
        is_list_request(Ok(req), devices_at(api_base, offset, limit, sn), token),
    ensures
        req@.method == "GET"@,
        req@.body is None,
        url::normal_url(api_base + "/wakeup/devices"@) is Ok,
        req@.url == url::with_query(
            url::normal_url(api_base + "/wakeup/devices"@)->Ok_0,
            url::pairs_text(device_query(offset, limit, sn)),
        ),
        req@.headers.contains(("Authorization"@, "Bearer "@ + token)),
{
    assert(req@.headers[0] == ("Authorization"@, "Bearer "@ + token));
}

/// The size that is sent is the default of 100 for 0, and 10000 for anything
/// above; a size that was changed is warned of, with both sizes.
pub proof fn changed_sizes_are_warned_of(offset: int, limit: int, shown: int)
    requires
        0 <= limit,
        0 <= shown,
        limit == 0 || limit > 10_000,
    ensures
        limit == 0 ==> sent_limit(limit) == 100,
        limit > 10_000 ==> sent_limit(limit) == 10_000,
        warnings_of(offset, limit, shown).len() >= 1,
        warnings_of(offset, limit, shown)[0] == "warning: --limit "@ + text::dec(limit as nat)
            + " requested, "@ + text::dec(
            if limit == 0 {
                100
            } else {
                10_000
            },
        )
            + " sent — the endpoint publishes no page size, so this client bounds its own request"@,
{
}

/// A full page is warned of, and the warning says where the next page starts:
/// behind everything that was shown.
pub proof fn full_pages_name_the_next(offset: int, limit: int)
    requires
        0 <= offset,
        1 <= limit <= MAX_DEVICE_LIMIT,
    ensures
        warnings_of(offset, limit, limit) == seq![
            "warning: a full page ("@ + text::dec(limit as nat) + " fetched at --limit "@
                + text::dec(limit as nat)
                + ") and the endpoint reports no total, so more may exist — fetch the next one with `oray-tools wakeup list --offset "@
                + text::dec((offset + limit) as nat) + "`"@,
        ],
{
}

/// A device that is found is one that was listed, with the serial number that
/// was asked for; it is found exactly where one such was listed, and the
/// report of a miss says for which, and among how many.
pub proof fn found_devices_were_listed(
    r: TracedResult<WakeupDevice>,
    listed: Traced<WakeupDevicesResponse>,
    sn: Seq<char>,
)
    requires
        is_found(r, Ok(listed), sn),
    ensures
        r matches Ok(done) ==> done.data.sn@ == sn && listed.data.devices@.contains(done.data)
            && done.calls == listed.calls,
        r is Ok <==> exists|i: int|
            0 <= i < listed.data.devices@.len() && (#[trigger] listed.data.devices@[i]).sn@ == sn,
        r matches Err(e) ==> e.error is Api && e.error->Api_0@ == "wakeup device sn="@ + sn
            + " not found among "@ + text::dec(listed.data.devices@.len())
            + " devices listed (only the first "@ + text::dec(100) + " are scanned)"@ && e.calls
            == listed.calls,
{
    device_at_is_first(listed.data.devices@, sn);
}

} // verus!
