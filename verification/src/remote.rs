//! Remote devices (PCs and phones): requests, and what their responses mean.

use crate::error::Error;
use crate::json;
use crate::json::Tree;
use crate::text;
use crate::trace;
use crate::trace::{Exchange, Request, RequestView, Traced, TracedError, TracedResult};
use serde_json::Error as JsonError;
use vstd::prelude::*;
use vstd::string::*;

verus! {

broadcast use vstd::seq_lib::group_seq_properties;

/// Remote device as returned by `GET /remotes`.
#[derive(Debug)]
pub struct Remote {
    pub remote_id: u64,
    pub mac: String,
    pub owner_id: u64,
    pub create_time: u64,
    pub statuscode: i64,
    pub client: String,
    /// Rich device info block.
    pub info: RemoteInfo,
    /// Online state block; absent when the remote is not reachable.
    pub state: Option<RemoteState>,
    pub limit_control: String,
}

/// Extended hardware and OS info.
#[derive(Debug)]
pub struct RemoteInfo {
    pub remote_id: u64,
    pub name: String,
    pub pc_name: String,
    pub cpu: String,
    pub memory: String,
    pub os_name: String,
    /// Memo; may be empty.
    pub description: String,
    pub disk_drive: String,
    pub video_controller: String,
    pub network_adapter: String,
    pub version: String,
    pub os: String,
    pub screen_size: String,
}

/// Runtime state block of a remote.
#[derive(Debug)]
pub struct RemoteState {
    pub addr: String,
    pub version: String,
    pub ip: String,
    pub login_time: u64,
    pub fastcode: String,
    pub owner_id: u64,
}

impl RemoteState {
    /// Whether any of the block is filled.
    pub open spec fn online(&self) -> bool {
        ||| self.addr@.len() > 0
        ||| self.version@.len() > 0
        ||| self.ip@.len() > 0
        ||| self.login_time != 0
        ||| self.fastcode@.len() > 0
        ||| self.owner_id != 0
    }

    /// Whether the remote is reachable right now. The cloud returns an empty
    /// block when the remote is offline, so a present but empty state does
    /// not count as online.
    pub fn is_online(&self) -> (r: bool)
        ensures
            r == self.online(),
    {
        !(text::is_empty(&self.addr) && text::is_empty(&self.version) && text::is_empty(&self.ip)
            && self.login_time == 0 && text::is_empty(&self.fastcode) && self.owner_id == 0)
    }
}

/// The page size this client asks `GET /remotes` for.
pub const REMOTE_PAGE_LIMIT: u64 = 10_000;

/// A page of remotes.
#[derive(Debug)]
pub struct RemotesResponse {
    /// Empty where the endpoint omits it.
    pub remotes: Vec<Remote>,
    pub total: Option<u64>,
    pub page_size_limit: Option<u64>,
}

/// Top-level wrapper of `GET /console/remotes/{id}`.
#[derive(Debug)]
pub struct ConsoleResponse {
    pub remote: ConsoleRemote,
}

/// Remote detail as returned by `GET /console/remotes/{id}`.
#[derive(Debug)]
pub struct ConsoleRemote {
    pub remote_id: u64,
    pub mac: String,
    pub owner_id: u64,
    pub create_time: u64,
    pub statuscode: i64,
    pub client: String,
    pub info: RemoteInfo,
    pub state: Option<RemoteState>,
    pub limit_control: String,
}

/// Acknowledgement returned by `PATCH /remotes/{id}/info`.
#[derive(Debug)]
pub struct UpdateResponse {
    pub remote_id: u64,
    pub name: String,
    pub description: String,
}

/// Payload of `PATCH /remotes/{id}/info`: both fields always go together.
#[derive(Debug)]
pub struct RemoteUpdate<'a> {
    pub name: &'a str,
    pub description: &'a str,
    pub update_type: u8,
}

/// The payload on one line.
pub open spec fn update_text(name: Seq<char>, description: Seq<char>, update_type: int) -> Seq<
    char,
> {
    "{\"name\":"@ + json::json_compact(Tree::Str(name)) + ",\"description\":"@
        + json::json_compact(Tree::Str(description)) + ",\"update_type\":"@ + text::dec(
        update_type as nat,
    ) + "}"@
}

impl<'a> RemoteUpdate<'a> {
    /// The payload that sets a name and a memo.
    pub fn new(name: &'a str, description: &'a str) -> (r: Self)
        ensures
            r.name@ == name@,
            r.description@ == description@,
            r.update_type == 1,
    {
        RemoteUpdate { name, description, update_type: 1 }
    }

    /// The payload as JSON.
    pub fn to_json(&self) -> (r: String)
        ensures
            r@ == update_text(self.name@, self.description@, self.update_type as int),
    {
        let mut s = "{\"name\":".to_owned();
        s.append(json::json_str(self.name).compact().as_str());
        s.append(",\"description\":");
        s.append(json::json_str(self.description).compact().as_str());
        s.append(",\"update_type\":");
        text::push_dec(&mut s, self.update_type as u64);
        s.append("}");
        s
    }
}

// ------------------------------------------------------------------------ URLs

/// The URL of a page of remotes.
pub open spec fn remotes_at(api_base: Seq<char>, offset: int, limit: int) -> Seq<char> {
    api_base + "/remotes?offset="@ + text::dec(offset as nat) + "&limit="@ + text::dec(
        limit as nat,
    ) + "&version=v2&new_server=1"@
}

/// `GET {api_base}/remotes?offset={offset}&limit={limit}&version=v2&new_server=1`.
pub fn remotes_list_url(api_base: &str, offset: u64, limit: u64) -> (r: String)
    ensures
        r@ == remotes_at(api_base@, offset as int, limit as int),
{
    let mut s = api_base.to_owned();
    s.append("/remotes?offset=");
    text::push_dec(&mut s, offset);
    s.append("&limit=");
    text::push_dec(&mut s, limit);
    s.append("&version=v2&new_server=1");
    s
}

// ------------------------------------------------------------------------- API

/// A request to the remote endpoints.
pub open spec fn remote_request(
    method: Seq<char>,
    url: Seq<char>,
    token: Seq<char>,
    body: Option<Seq<char>>,
) -> RequestView {
    RequestView {
        method,
        url,
        headers: match body {
            Some(_) => trace::api_headers_view(token).push(("Content-Type"@, "application/json"@)),
            None => trace::api_headers_view(token),
        },
        body,
    }
}

/// Where the first remote with that id stands.
pub open spec fn remote_at(remotes: Seq<Remote>, id: u64) -> Option<int>
    decreases remotes.len(),
{
    if remotes.len() == 0 {
        None
    } else if remotes[0].remote_id == id {
        Some(0)
    } else {
        match remote_at(remotes.drop_first(), id) {
            Some(i) => Some(i + 1),
            None => None,
        }
    }
}

/// [`remote_at`] finds the first such remote, and misses none.
pub proof fn remote_at_is_first(remotes: Seq<Remote>, id: u64)
    ensures
        match remote_at(remotes, id) {
            Some(i) => 0 <= i < remotes.len() && remotes[i].remote_id == id && forall|j: int|
                0 <= j < i ==> (#[trigger] remotes[j]).remote_id != id,
            None => forall|j: int|
                0 <= j < remotes.len() ==> (#[trigger] remotes[j]).remote_id != id,
        },
    decreases remotes.len(),
{
    if remotes.len() > 0 && remotes[0].remote_id != id {
        let rest = remotes.drop_first();
        remote_at_is_first(rest, id);
        assert forall|j: int|
            0 <= j < remotes.len() && (match remote_at(remotes, id) {
                Some(i) => j < i,
                None => true,
            }) implies (#[trigger] remotes[j]).remote_id != id by {
            if j > 0 {
                assert(remotes[j] == rest[j - 1]);
            }
        }
    }
}

/// Where the first remote with that id stands.
fn find_remote(remotes: &Vec<Remote>, id: u64) -> (r: Option<usize>)
    ensures
        match r {
            Some(i) => i < remotes@.len() && remote_at(remotes@, id) == Some(i as int),
            None => remote_at(remotes@, id) is None,
        },
{
    let mut i: usize = 0;
    proof {
        assert(remotes@.skip(0) =~= remotes@);
    }
    while i < remotes.len()
        invariant
            i <= remotes@.len(),
            match remote_at(remotes@.skip(i as int), id) {
                Some(k) => remote_at(remotes@, id) == Some(k + i),
                None => remote_at(remotes@, id) is None,
            },
        decreases remotes.len() - i,
    {
        if remotes[i].remote_id == id {
            return Some(i);
        }
        proof {
            assert(remotes@.skip(i as int).drop_first() =~= remotes@.skip(i + 1));
        }
        i = i + 1;
    }
    None
}

/// How a remote that was not listed is reported.
pub open spec fn remote_missing(id: int, scanned: int) -> Seq<char> {
    "remote "@ + text::dec(id as nat) + " not found among "@ + text::dec(scanned as nat)
        + " remotes listed"@
}

/// Whether `r` is what looking a remote up in what was listed comes to.
pub open spec fn is_found(
    r: TracedResult<Remote>,
    all: TracedResult<RemotesResponse>,
    remote_id: u64,
) -> bool {
    match all {
        Ok(listed) => match remote_at(listed.data.remotes@, remote_id) {
            Some(i) => r matches Ok(done) && done.data == listed.data.remotes@[i] && done.calls
                == listed.calls,
            None => r matches Err(e) && e.error is Api && e.error->Api_0@ == remote_missing(
                remote_id as int,
                listed.data.remotes@.len() as int,
            ) && e.calls == listed.calls,
        },
        Err(e) => r == Err::<Traced<Remote>, TracedError>(e),
    }
}

/// Thin wrapper over the Oray remote-device HTTP endpoints.
pub struct RemoteApi {
    pub api_base: String,
}

impl RemoteApi {
    /// For the API base (e.g. `https://api-std.sunlogin.oray.com`).
    pub fn new(api_base: &str) -> (r: Self)
        ensures
            r.api_base@ == text::trim_end_char(api_base@, '/'),
    {
        RemoteApi { api_base: text::without_trailing(api_base, '/') }
    }

    /// One request with the shared headers.
    fn send(token: &str, method: &'static str, url: String, body: Option<String>) -> (r: Request)
        ensures
            r@ == remote_request(method@, url@, token@, text::opt_view(body)),
    {
        let mut headers = trace::api_headers(token);
        if body.is_some() {
            trace::add_header(&mut headers, "Content-Type", "application/json");
        }
        Request { method, url, headers, body }
    }

    /// The request for a page of remotes.
    pub fn list(&self, token: &str, offset: u64, limit: u64) -> (r: Request)
        ensures
            r@ == remote_request(
                "GET"@,
                remotes_at(self.api_base@, offset as int, limit as int),
                token@,
                None,
            ),
    {
        RemoteApi::send(
            token,
            "GET",
            remotes_list_url(self.api_base.as_str(), offset, limit),
            None,
        )
    }

    /// What the answer to a list request comes to, given what parsing its body
    /// gave.
    pub fn listed(ex: Exchange, parsed: Result<RemotesResponse, JsonError>) -> (r: TracedResult<
        RemotesResponse,
    >)
        ensures
            trace::is_expected_json(r, ex, "list remotes", parsed),
    {
        trace::expect_json(ex, "list remotes", parsed)
    }

    /// The request that [`RemoteApi::found`] looks a remote up in: one page of
    /// [`REMOTE_PAGE_LIMIT`] remotes.
    pub fn find(&self, token: &str) -> (r: Request)
        ensures
            r@ == remote_request(
                "GET"@,
                remotes_at(self.api_base@, 0, REMOTE_PAGE_LIMIT as int),
                token@,
                None,
            ),
    {
        self.list(token, 0, REMOTE_PAGE_LIMIT)
    }

    /// Looks a remote up by id in what was listed. There is no lookup by id:
    /// a miss means that it is not among the remotes listed.
    pub fn found(all: TracedResult<RemotesResponse>, remote_id: u64) -> (r: TracedResult<Remote>)
        ensures
            is_found(r, all, remote_id),
    {
        match all {
            Ok(listed) => {
                let calls = listed.calls;
                let mut remotes = listed.data.remotes;
                match find_remote(&remotes, remote_id) {
                    Some(i) => Ok(Traced { data: remotes.remove(i), calls }),
                    None => {
                        let mut s = "remote ".to_owned();
                        text::push_dec(&mut s, remote_id);
                        s.append(" not found among ");
                        text::push_dec(&mut s, remotes.len() as u64);
                        s.append(" remotes listed");
                        Err(TracedError { error: Error::Api(s), calls })
                    },
                }
            },
            Err(e) => Err(e),
        }
    }

    /// The request for extended detail of a remote.
    pub fn detail(&self, token: &str, remote_id: u64) -> (r: Request)
        ensures
            r@ == remote_request(
                "GET"@,
                self.api_base@ + "/console/remotes/"@ + text::dec(remote_id as nat)
                    + "?with_powerplan=true&with_extend=true&new_server=1"@,
                token@,
                None,
            ),
    {
        let mut url = self.api_base.clone();
        url.append("/console/remotes/");
        text::push_dec(&mut url, remote_id);
        url.append("?with_powerplan=true&with_extend=true&new_server=1");
        RemoteApi::send(token, "GET", url, None)
    }

    /// What the answer to a detail request comes to, given what parsing its
    /// body gave: the remote inside the wrapper.
    pub fn detailed(ex: Exchange, parsed: Result<ConsoleResponse, JsonError>) -> (r: TracedResult<
        ConsoleRemote,
    >)
        ensures
            trace::is_expected_json(
                r,
                ex,
                "get remote detail",
                match parsed {
                    Ok(resp) => Ok(resp.remote),
                    Err(e) => Err(e),
                },
            ),
    {
        let inner = match parsed {
            Ok(resp) => Ok(resp.remote),
            Err(e) => Err(e),
        };
        trace::expect_json(ex, "get remote detail", inner)
    }

    /// The request that updates the name and the memo of a remote.
    pub fn update(&self, token: &str, remote_id: u64, update: &RemoteUpdate<'_>) -> (r: Request)
        ensures
            r@ == remote_request(
                "PATCH"@,
                self.api_base@ + "/remotes/"@ + text::dec(remote_id as nat) + "/info"@,
                token@,
                Some(update_text(update.name@, update.description@, update.update_type as int)),
            ),
    {
        let mut url = self.api_base.clone();
        url.append("/remotes/");
        text::push_dec(&mut url, remote_id);
        url.append("/info");
        RemoteApi::send(token, "PATCH", url, Some(update.to_json()))
    }

    /// What the answer to an update request comes to, given what parsing its
    /// body gave.
    pub fn updated(ex: Exchange, parsed: Result<UpdateResponse, JsonError>) -> (r: TracedResult<
        UpdateResponse,
    >)
        ensures
            trace::is_expected_json(r, ex, "update remote", parsed),
    {
        trace::expect_json(ex, "update remote", parsed)
    }
}

// ---------------------------------------------------------------------- laws

/// The page in which a remote is looked up starts with the first remote, and
/// ten thousand are asked for.
pub proof fn first_pages_are_large(api_base: Seq<char>)
    ensures
        remotes_at(api_base, 0, REMOTE_PAGE_LIMIT as int) == api_base
            + "/remotes?offset=0&limit=10000&version=v2&new_server=1"@,
{
    reveal_with_fuel(text::dec, 6);
    reveal_strlit("/remotes?offset=");
    reveal_strlit("&limit=");
    reveal_strlit("&version=v2&new_server=1");
    reveal_strlit("/remotes?offset=0&limit=10000&version=v2&new_server=1");
    assert(text::dec(0) =~= seq!['0']);
    assert(text::dec(10000) =~= seq!['1', '0', '0', '0', '0']);
    assert("/remotes?offset=0&limit=10000&version=v2&new_server=1"@ =~= "/remotes?offset="@
        + text::dec(0) + "&limit="@ + text::dec(10000) + "&version=v2&new_server=1"@);
    assert(remotes_at(api_base, 0, REMOTE_PAGE_LIMIT as int) =~= api_base
        + "/remotes?offset=0&limit=10000&version=v2&new_server=1"@);
}

/// The payload of an update holds both fields, each under its own name.
pub proof fn updates_set_both_fields(name: Seq<char>, description: Seq<char>)
    ensures
        update_text(name, description, 1) == "{\"name\":"@ + json::json_compact(Tree::Str(name))
            + ",\"description\":"@ + json::json_compact(Tree::Str(description))
            + ",\"update_type\":1}"@,
{
    reveal_with_fuel(text::dec, 2);
    reveal_strlit("}");
    reveal_strlit(",\"update_type\":");
    reveal_strlit(",\"update_type\":1}");
    assert(text::dec(1) =~= seq!['1']);
    assert(",\"update_type\":1}"@ =~= ",\"update_type\":"@ + text::dec(1) + "}"@);
    assert(update_text(name, description, 1) =~= "{\"name\":"@ + json::json_compact(
        Tree::Str(name),
    ) + ",\"description\":"@ + json::json_compact(Tree::Str(description))
        + ",\"update_type\":1}"@);
}

/// Every request to the remote endpoints carries the token, and says that its
/// body is JSON exactly where it has one.
pub proof fn remote_requests_are_authorized(
    method: Seq<char>,
    url: Seq<char>,
    token: Seq<char>,
    body: Seq<char>,
)
    ensures
        remote_request(method, url, token, None).method == method,
        remote_request(method, url, token, None).url == url,
        remote_request(method, url, token, None).body is None,
        remote_request(method, url, token, None).headers.contains(
            ("Authorization"@, "Bearer "@ + token),
        ),
        remote_request(method, url, token, Some(body)).method == method,
        remote_request(method, url, token, Some(body)).url == url,
        remote_request(method, url, token, Some(body)).body == Some(body),
        remote_request(method, url, token, Some(body)).headers
            == remote_request(method, url, token, None).headers.push(
            ("Content-Type"@, "application/json"@),
        ),
{
    assert(remote_request(method, url, token, None).headers[0] == (
        "Authorization"@,
        "Bearer "@ + token,
    ));
}

/// A remote that is found is one that was listed, under the id that was asked
/// for; it is found exactly where one such was listed, and the report of a
/// miss says for which id, and among how many.
pub proof fn found_remotes_were_listed(
    r: TracedResult<Remote>,
    listed: Traced<RemotesResponse>,
    id: u64,
)
    requires
        is_found(r, Ok(listed), id),
    ensures
        r matches Ok(done) ==> done.data.remote_id == id && listed.data.remotes@.contains(
            done.data,
        ) && done.calls == listed.calls,
        r is Ok <==> exists|i: int|
            0 <= i < listed.data.remotes@.len() && (#[trigger] listed.data.remotes@[i]).remote_id
                == id,
        r matches Err(e) ==> e.error is Api && e.error->Api_0@ == "remote "@ + text::dec(id as nat)
            + " not found among "@ + text::dec(listed.data.remotes@.len()) + " remotes listed"@
            && e.calls == listed.calls,
{
    remote_at_is_first(listed.data.remotes@, id);
}

} // verus!
