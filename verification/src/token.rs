//! Token lifecycle: when an access token expires, when it has to be renewed,
//! and how a call is retried.

use crate::auth;
use crate::auth::{AuthApi, AuthResponse};
use crate::config::{Client, Config, Token};
use crate::json;
use crate::json::{Json, Tree};
use crate::schedule;
use crate::text;
use crate::times;
use crate::trace::{Request, RequestLog, RequestView, Traced, TracedError, TracedResult};
use base64::Engine;
use vstd::prelude::*;
use vstd::string::*;

verus! {

/// A token counts as expired this many seconds before its `exp`, so that a
/// request launched at the boundary does not go out with a dead token.
pub const EXPIRY_SKEW_SECS: i64 = 45;

// ------------------------------------------------------------------------- jwt

/// The second of the parts of `s` that dots separate.
pub open spec fn second_part(s: Seq<char>) -> Option<Seq<char>> {
    match text::split_once(s, "."@) {
        Some(at_first) => match text::split_once(at_first.1, "."@) {
            Some(at_second) => Some(at_second.0),
            None => Some(at_first.1),
        },
        None => None,
    }
}

/// The second of the parts of `s` that dots separate.
fn payload_part(s: &str) -> (r: Option<String>)
    ensures
        text::opt_view(r) == second_part(s@),
{
    match text::split_at_first(s, ".") {
        Some(at_first) => match text::split_at_first(at_first.1.as_str(), ".") {
            Some(at_second) => Some(at_second.0),
            None => Some(at_first.1),
        },
        None => None,
    }
}

/// The bytes that a text writes in base64 with the URL-safe alphabet and
/// without padding.
pub uninterp spec fn base64_url(part: Seq<char>) -> Option<Seq<u8>>;

/// `Engine::decode` of `URL_SAFE_NO_PAD`. Claimed: whether it succeeds, and
/// the bytes, depends on the text alone.
#[verifier::external_body]
fn decode_base64_url(part: &str) -> (r: Option<Vec<u8>>)
    ensures
        match r {
            Some(bytes) => base64_url(part@) == Some(bytes@),
            None => base64_url(part@) is None,
        },
{
    base64::engine::general_purpose::URL_SAFE_NO_PAD.decode(part).ok()
}

/// The payload of a JWT.
pub open spec fn payload_of(token: Seq<char>) -> Option<Tree> {
    match second_part(token) {
        Some(part) => match base64_url(part) {
            Some(bytes) => json::json_parse_bytes(bytes),
            None => None,
        },
        None => None,
    }
}

/// The payload of a JWT: its second part, decoded and parsed.
pub fn jwt_payload(token: &str) -> (r: Option<Json>)
    ensures
        match r {
            Some(payload) => payload_of(token@) == Some(payload@),
            None => payload_of(token@) is None,
        },
{
    match payload_part(token) {
        Some(part) => match decode_base64_url(part.as_str()) {
            Some(bytes) => Json::parse_bytes(&bytes),
            None => None,
        },
        None => None,
    }
}

/// The `exp` claim of a payload.
pub open spec fn exp_of(payload: Tree) -> Option<int> {
    match json::member(payload, "exp"@) {
        Some(exp) => json::tree_i64(exp),
        None => None,
    }
}

/// The `exp` claim of a payload: the absolute unix timestamp at which the
/// token expires.
pub fn exp_claim(payload: &Json) -> (r: Option<i64>)
    ensures
        match r {
            Some(exp) => exp_of(payload@) == Some(exp as int),
            None => exp_of(payload@) is None,
        },
{
    match payload.get("exp") {
        Some(exp) => exp.as_i64(),
        None => None,
    }
}

/// When a token expires.
pub open spec fn expiry_of(token: Seq<char>) -> Option<int> {
    match payload_of(token) {
        Some(payload) => exp_of(payload),
        None => None,
    }
}

/// Absolute unix timestamp at which the access token expires, read verbatim
/// from the JWT `exp` claim.
pub fn access_expiry(token: &str) -> (r: Option<i64>)
    ensures
        match r {
            Some(exp) => expiry_of(token@) == Some(exp as int),
            None => expiry_of(token@) is None,
        },
{
    match jwt_payload(token) {
        Some(payload) => exp_claim(&payload),
        None => None,
    }
}

/// Whether a token with that expiry has to be renewed at `now`.
pub open spec fn is_stale(expiry: Option<int>, now: int) -> bool {
    match expiry {
        Some(exp) => exp <= now + EXPIRY_SKEW_SECS,
        None => true,
    }
}

/// Whether a token with that expiry has to be renewed at `now`: within
/// [`EXPIRY_SKEW_SECS`] of its expiry, or without a readable one.
pub fn expired_at(expiry: Option<i64>, now: i64) -> (r: bool)
    requires
        schedule::fits(now + EXPIRY_SKEW_SECS),
    ensures
        r == is_stale(
            match expiry {
                Some(exp) => Some(exp as int),
                None => None,
            },
            now as int,
        ),
{
    match expiry {
        Some(exp) => exp <= now + EXPIRY_SKEW_SECS,
        None => true,
    }
}

/// Whether the access token should be refreshed before use, by the current
/// time.
pub fn is_access_expired(token: &str) -> (r: bool)
    ensures
        expiry_of(token@) is None ==> r,
        exists|now: int| times::in_calendar(now) && r == #[trigger] is_stale(expiry_of(token@), now),
{
    let now: i64 = times::now();
    let r = expired_at(access_expiry(token), now);
    proof {
        assert(r == is_stale(expiry_of(token@), now as int));
    }
    r
}

/// Absolute unix timestamp for refresh_token expiry, by the current time.
pub fn refresh_expiry(resp: &AuthResponse) -> (r: i64)
    ensures
        exists|now: int|
            times::in_calendar(now) && r == #[trigger] auth::refresh_deadline(
                resp.refresh_expires,
                resp.refresh_ttl,
                now,
            ),
{
    let now: i64 = times::now();
    let r = auth::refresh_expires_at(resp, now);
    proof {
        assert(r == auth::refresh_deadline(resp.refresh_expires, resp.refresh_ttl, now as int));
    }
    r
}

// ------------------------------------------------------------------- client ids

/// The client id that is known without making one up.
pub open spec fn known_clientid(cfg: Config, cli: Option<Seq<char>>) -> Option<Seq<char>> {
    match cli {
        Some(c) if c.len() > 0 => Some(c),
        _ => match cfg.client {
            Some(client) if client.clientid@.len() > 0 => Some(client.clientid@),
            _ => None,
        },
    }
}

/// Resolves the trusted client id: the one given, else the configured one,
/// else a fresh one, which is written into the configuration. One that was
/// given serves this run alone, and is not written there.
pub fn resolve_clientid(cfg: &mut Config, cli_clientid: Option<&str>) -> (r: String)
    ensures
        match known_clientid(*old(cfg), text::opt_str_view(cli_clientid)) {
            Some(id) => r@ == id && *final(cfg) == *old(cfg),
            None => auth::is_uuid_v4(r@) && *final(cfg) == (Config {
                client: Some(Client { clientid: r }),
                ..*old(cfg)
            }),
        },
{
    if let Some(c) = cli_clientid {
        let given = c.to_owned();
        if !text::is_empty(&given) {
            return given;
        }
    }
    if let Some(client) = &cfg.client {
        if !text::is_empty(&client.clientid) {
            return client.clientid.clone();
        }
    }
    let id = auth::generate_client_id();
    cfg.client = Some(Client { clientid: id.clone() });
    id
}

// ----------------------------------------------------------------- ensure_token

/// How to come by a usable token.
pub enum TokenPlan {
    /// There is no way; why.
    Fail(String),
    /// The saved token is good.
    Use(Token),
    /// The saved tokens have to be exchanged for fresh ones: access token and
    /// refresh token.
    Refresh(String, String),
}

/// What a [`TokenPlan`] says.
pub enum PlanView {
    Fail(Seq<char>),
    Use(Token),
    Refresh(Seq<char>, Seq<char>),
}

impl View for TokenPlan {
    type V = PlanView;

    open spec fn view(&self) -> PlanView {
        match self {
            TokenPlan::Fail(m) => PlanView::Fail(m@),
            TokenPlan::Use(t) => PlanView::Use(*t),
            TokenPlan::Refresh(a, r) => PlanView::Refresh(a@, r@),
        }
    }
}

/// How to come by a usable token, given whether the saved access token has
/// expired.
pub open spec fn plan_of(cfg: Config, force: bool, expired: bool) -> PlanView {
    if cfg.account is None {
        PlanView::Fail("no account configured; run `oray-tools auth login`"@)
    } else {
        match cfg.token {
            Some(t) => if !force && t.access_token@.len() > 0 && !expired {
                PlanView::Use(t)
            } else if t.refresh_token@.len() == 0 {
                PlanView::Fail(
                    "no valid access token and no refresh token; run `oray-tools auth login`"@,
                )
            } else {
                PlanView::Refresh(t.access_token@, t.refresh_token@)
            },
            None => PlanView::Fail(
                "no valid access token and no refresh token; run `oray-tools auth login`"@,
            ),
        }
    }
}

/// How to come by a usable token, given whether the saved access token has
/// expired: with `force` it is renewed even where it has not.
pub fn plan_token(cfg: &Config, force: bool, expired: bool) -> (r: TokenPlan)
    ensures
        r@ == plan_of(*cfg, force, expired),
{
    if cfg.account.is_none() {
        return TokenPlan::Fail("no account configured; run `oray-tools auth login`".to_owned());
    }
    match &cfg.token {
        Some(t) => if !force && !text::is_empty(&t.access_token) && !expired {
            TokenPlan::Use(t.clone())
        } else if text::is_empty(&t.refresh_token) {
            TokenPlan::Fail(
                "no valid access token and no refresh token; run `oray-tools auth login`".to_owned(),
            )
        } else {
            TokenPlan::Refresh(t.access_token.clone(), t.refresh_token.clone())
        },
        None => TokenPlan::Fail(
            "no valid access token and no refresh token; run `oray-tools auth login`".to_owned(),
        ),
    }
}

/// What has to be done for a usable token.
pub enum TokenStep {
    /// There is no way; why.
    Fail(String),
    /// This token is good.
    Use(Token),
    /// Perform this refresh request, and hand its answer to
    /// [`adopt_refreshed`].
    Refresh(Request),
}

/// Whether `id` is the client id that requests go out under, where `cli` was
/// given, and `after` is the configuration then: unchanged where an id was
/// known, else with a fresh one in it.
pub open spec fn client_chosen(
    before: Config,
    after: Config,
    cli: Option<Seq<char>>,
    id: Seq<char>,
) -> bool {
    match known_clientid(before, cli) {
        Some(known) => id == known && after == before,
        None => {
            &&& auth::is_uuid_v4(id)
            &&& after == (Config { client: after.client, ..before })
            &&& after.client is Some && after.client->Some_0.clientid@ == id
        },
    }
}

/// The request that exchanges saved tokens for fresh ones.
pub open spec fn refresh_request(
    cfg: Config,
    id: Seq<char>,
    access: Seq<char>,
    refresh: Seq<char>,
) -> RequestView {
    auth::json_request(
        "POST"@,
        text::trim_end_char(cfg.servers().api_base, '/') + "/authorize/refreshing"@,
        auth::auth_headers(id, Some(access)),
        auth::refresh_tree(refresh),
    )
}

/// Whether `r` carries out a plan, under the client id `cli` where one was
/// given.
pub open spec fn carries_out(
    r: TokenStep,
    plan: PlanView,
    cli: Option<Seq<char>>,
    before: Config,
    after: Config,
) -> bool {
    match plan {
        PlanView::Fail(m) => r is Fail && r->Fail_0@ == m && after == before,
        PlanView::Use(t) => r == TokenStep::Use(t) && after == before,
        PlanView::Refresh(access, refresh) => r is Refresh && exists|id: Seq<char>| #[trigger]
            client_chosen(before, after, cli, id) && r->Refresh_0@ == refresh_request(
                before,
                id,
                access,
                refresh,
            ),
    }
}

/// Whether the saved access token has to be renewed at `now`.
pub open spec fn saved_is_stale(cfg: Config, now: int) -> bool {
    match cfg.token {
        Some(t) => is_stale(expiry_of(t.access_token@), now),
        None => true,
    }
}

/// What has to be done for a usable token at `now`. A refresh goes out under
/// the client id that was given, else the configured one; where there is
/// neither, a fresh one is written into the configuration. With `force` the
/// token is renewed even where it is still good.
pub fn ensure_token_at(
    cfg: &mut Config,
    force: bool,
    cli_clientid: Option<&str>,
    now: i64,
) -> (r: TokenStep)
    requires
        schedule::fits(now + EXPIRY_SKEW_SECS),
    ensures
        carries_out(
            r,
            plan_of(*old(cfg), force, saved_is_stale(*old(cfg), now as int)),
            text::opt_str_view(cli_clientid),
            *old(cfg),
            *final(cfg),
        ),
{
    let expired = match &cfg.token {
        Some(t) => expired_at(access_expiry(t.access_token.as_str()), now),
        None => true,
    };
    match plan_token(cfg, force, expired) {
        TokenPlan::Fail(m) => TokenStep::Fail(m),
        TokenPlan::Use(t) => TokenStep::Use(t),
        TokenPlan::Refresh(access, refresh) => {
            let server = cfg.server();
            let api = AuthApi::new(server.api_base.as_str());
            let cid = resolve_clientid(cfg, cli_clientid);
            let req = api.refresh(cid.as_str(), access.as_str(), refresh.as_str());
            proof {
                assert(client_chosen(*old(cfg), *cfg, text::opt_str_view(cli_clientid), cid@));
            }
            TokenStep::Refresh(req)
        },
    }
}

/// What has to be done for a usable token, by the current time.
pub fn ensure_token(cfg: &mut Config, force: bool, cli_clientid: Option<&str>) -> (r: TokenStep)
    ensures
        exists|now: int|
            times::in_calendar(now) && carries_out(
                r,
                plan_of(*old(cfg), force, #[trigger] saved_is_stale(*old(cfg), now)),
                text::opt_str_view(cli_clientid),
                *old(cfg),
                *final(cfg),
            ),
{
    let now: i64 = times::now();
    let r = ensure_token_at(cfg, force, cli_clientid, now);
    proof {
        assert(carries_out(
            r,
            plan_of(*old(cfg), force, saved_is_stale(*old(cfg), now as int)),
            text::opt_str_view(cli_clientid),
            *old(cfg),
            *cfg,
        ));
    }
    r
}

/// The tokens that a response carries, with the deadline of the refresh token.
pub fn token_of(resp: AuthResponse, now: i64) -> (r: Token)
    requires
        schedule::fits(
            auth::refresh_deadline(resp.refresh_expires, resp.refresh_ttl, now as int),
        ),
    ensures
        r == (Token {
            access_token: resp.access_token,
            refresh_token: resp.refresh_token,
            refresh_expires: auth::refresh_deadline(
                resp.refresh_expires,
                resp.refresh_ttl,
                now as int,
            ) as i64,
        }),
{
    let refresh_expires: i64 = auth::refresh_expires_at(&resp, now);
    Token { access_token: resp.access_token, refresh_token: resp.refresh_token, refresh_expires }
}

/// Whether `t` holds the tokens of a response, with a deadline that is right
/// at some time.
pub open spec fn is_token_of(t: Token, resp: AuthResponse) -> bool {
    &&& t.access_token == resp.access_token
    &&& t.refresh_token == resp.refresh_token
    &&& exists|now: int|
        times::in_calendar(now) && t.refresh_expires == #[trigger] auth::refresh_deadline(
            resp.refresh_expires,
            resp.refresh_ttl,
            now,
        )
}

/// Writes the tokens of a response into the configuration, with the deadline
/// by the current time; nothing else in it changes.
pub fn adopt_refreshed(cfg: &mut Config, resp: AuthResponse) -> (r: Token)
    ensures
        is_token_of(r, resp),
        *final(cfg) == (Config { token: Some(r), ..*old(cfg) }),
{
    let now: i64 = times::now();
    let t = token_of(resp, now);
    proof {
        assert(t.refresh_expires == auth::refresh_deadline(
            resp.refresh_expires,
            resp.refresh_ttl,
            now as int,
        ));
    }
    cfg.token = Some(t.clone());
    t
}

// ------------------------------------------------------------------- with_token

/// How often a call was made before.
#[derive(Debug, Clone, Copy, PartialEq, Eq, Structural)]
pub enum Attempt {
    /// Never.
    First,
    /// Once; its token had expired.
    Second,
}

impl Attempt {
    /// Whether the token has to be renewed before the call, good as it may
    /// look.
    pub fn force(&self) -> (r: bool)
        ensures
            r == (self is Second),
    {
        match self {
            Attempt::First => false,
            Attempt::Second => true,
        }
    }
}

/// What comes after an authenticated call.
pub enum AfterCall<T> {
    /// It succeeded: its data, and the exchanges to show.
    Done(T, Vec<RequestLog>),
    /// The token had expired: show these exchanges, and make this attempt.
    Retry(Vec<RequestLog>, Attempt),
    /// It failed for good.
    Fail(TracedError),
}

/// What to say before a call is made again.
pub const RETRY_NOTICE: &'static str = "access token expired; refreshing and retrying...";

/// What comes after an authenticated call.
pub open spec fn after_call<T>(
    r: TracedResult<T>,
    attempt: Attempt,
    refresh_on_expired: bool,
) -> AfterCall<T> {
    match r {
        Ok(done) => AfterCall::Done(done.data, done.calls),
        Err(e) => if e.error is TokenExpired && refresh_on_expired && attempt is First {
            AfterCall::Retry(e.calls, Attempt::Second)
        } else {
            AfterCall::Fail(e)
        },
    }
}

/// What comes after an authenticated call: on an expired token, where that is
/// wanted (`refresh_on_expired`) and the call was the first, it is made once
/// more with a fresh token.
pub fn with_token<T>(r: TracedResult<T>, attempt: Attempt, refresh_on_expired: bool) -> (next:
    AfterCall<T>)
    ensures
        next == after_call(r, attempt, refresh_on_expired),
{
    match r {
        Ok(done) => AfterCall::Done(done.data, done.calls),
        Err(e) => if e.is_token_expired() && refresh_on_expired && !attempt.force() {
            AfterCall::Retry(e.calls, Attempt::Second)
        } else {
            AfterCall::Fail(e)
        },
    }
}

// ---------------------------------------------------------------------- laws

/// Once a token has to be renewed, it has to be renewed at every later time.
pub proof fn staleness_is_final(expiry: Option<int>, now: int, later: int)
    requires
        now <= later,
        is_stale(expiry, now),
    ensures
        is_stale(expiry, later),
{
}

/// Without force, a saved token that has not expired is used as it is; with
/// force it never is.
pub proof fn force_renews(cfg: Config, expired: bool)
    ensures
        !(plan_of(cfg, true, expired) is Use),
        cfg.account is Some && (cfg.token matches Some(t) && t.access_token@.len() > 0) && !expired
            ==> plan_of(cfg, false, expired) == PlanView::Use(cfg.token->Some_0),
{
}

/// Right after tokens were adopted, a plan is never to fail for want of a
/// refresh token, as long as the response carried one.
pub proof fn adopted_tokens_can_be_renewed(
    before: Config,
    after: Config,
    resp: AuthResponse,
    t: Token,
    expired: bool,
    force: bool,
)
    requires
        before.account is Some,
        is_token_of(t, resp),
        after == (Config { token: Some(t), ..before }),
        resp.refresh_token@.len() > 0,
    ensures
        !(plan_of(after, force, expired) is Fail),
{
}

/// A client id that was given serves the run and no other: requests go out
/// under it, and the configuration keeps the id that it had.
pub proof fn given_ids_are_not_kept(
    before: Config,
    after: Config,
    given: Seq<char>,
    id: Seq<char>,
)
    requires
        given.len() > 0,
        client_chosen(before, after, Some(given), id),
    ensures
        id == given,
        after == before,
{
}

/// A token has to be renewed from 45 seconds before it expires on, and where
/// its expiry cannot be read.
pub proof fn tokens_are_renewed_ahead(exp: int, now: int)
    ensures
        is_stale(Some(exp), now) <==> exp - now <= 45,
        is_stale(None, now),
{
}

/// The expiry is the `exp` claim, where that is an integer.
pub proof fn expiry_is_the_claim(payload: Tree, exp: int)
    ensures
        json::member(payload, "exp"@) == Some(json::int_tree(exp)) && i64::MIN <= exp <= i64::MAX
            ==> exp_of(payload) == Some(exp),
        json::member(payload, "exp"@) is None ==> exp_of(payload) is None,
        json::member(payload, "exp"@) matches Some(claim) ==> !(claim is Num) ==> exp_of(payload)
            is None,
{
}

/// The payload of a token is what stands between its first two dots.
pub proof fn payload_stands_between_dots(head: Seq<char>, body: Seq<char>, tail: Seq<char>)
    requires
        forall|i: int| 0 <= i < head.len() ==> head[i] != '.',
        forall|i: int| 0 <= i < body.len() ==> body[i] != '.',
    ensures
        second_part(head + "."@ + body + "."@ + tail) == Some(body),
        second_part(head + "."@ + body) == Some(body),
        second_part(head) is None,
{
    reveal_strlit(".");
    assert("."@ =~= seq!['.']);
    text::splits_at_the_separator(head, '.', body + "."@ + tail);
    text::splits_at_the_separator(head, '.', body);
    text::splits_at_the_separator(body, '.', tail);
    assert(head + "."@ + body + "."@ + tail =~= head + "."@ + (body + "."@ + tail));
}

/// A token is used only where there is an account, and renewed with the saved
/// tokens, each in its place; a plan fails exactly where there is no account,
/// or where the saved token does not do and there is no refresh token.
pub proof fn plans_use_the_saved_tokens(cfg: Config, force: bool, expired: bool)
    ensures
        plan_of(cfg, force, expired) matches PlanView::Use(t) ==> cfg.account is Some && cfg.token
            == Some(t) && !force && !expired && t.access_token@.len() > 0,
        plan_of(cfg, force, expired) matches PlanView::Refresh(access, refresh) ==> {
            &&& cfg.account is Some
            &&& cfg.token is Some
            &&& access == cfg.token->Some_0.access_token@
            &&& refresh == cfg.token->Some_0.refresh_token@
            &&& refresh.len() > 0
        },
        plan_of(cfg, force, expired) is Fail <==> {
            ||| cfg.account is None
            ||| cfg.token is None
            ||| cfg.token->Some_0.refresh_token@.len() == 0 && (force || expired
                || cfg.token->Some_0.access_token@.len() == 0)
        },
{
}

/// A plan that fails says what is missing.
pub proof fn failed_plans_ask_for_a_login(cfg: Config, force: bool, expired: bool)
    ensures
        cfg.account is None ==> plan_of(cfg, force, expired) == PlanView::Fail(
            "no account configured; run `oray-tools auth login`"@,
        ),
        cfg.account is Some && plan_of(cfg, force, expired) is Fail ==> plan_of(cfg, force, expired)
            == PlanView::Fail(
            "no valid access token and no refresh token; run `oray-tools auth login`"@,
        ),
{
}

/// A refresh goes to the configured server under the client id, in the name
/// of the old access token, and hands over the refresh token.
pub proof fn refreshes_carry_both_tokens(
    cfg: Config,
    id: Seq<char>,
    access: Seq<char>,
    refresh: Seq<char>,
)
    ensures
        refresh_request(cfg, id, access, refresh).method == "POST"@,
        refresh_request(cfg, id, access, refresh).url == text::trim_end_char(
            cfg.servers().api_base,
            '/',
        ) + "/authorize/refreshing"@,
        refresh_request(cfg, id, access, refresh).headers.contains(("EX-ClientId"@, id)),
        refresh_request(cfg, id, access, refresh).headers.contains(
            ("Authorization"@, "Bearer "@ + access),
        ),
        refresh_request(cfg, id, access, refresh).body == Some(
            json::json_compact(
                Tree::Object(map!["refresh_token"@ => Tree::Str(refresh)]),
            ),
        ),
{
    let req = refresh_request(cfg, id, access, refresh);
    assert(req.headers[3] == ("EX-ClientId"@, id));
    assert(req.headers[7] == ("Authorization"@, "Bearer "@ + access));
}

/// What is done for a usable token is what is due: a good token is used and
/// nothing changes, and one that is renewed is renewed with the saved tokens,
/// under the id that was given or else the configured one.
pub proof fn steps_follow_the_saved_tokens(
    r: TokenStep,
    force: bool,
    now: int,
    cli: Option<Seq<char>>,
    before: Config,
    after: Config,
)
    requires
        carries_out(r, plan_of(before, force, saved_is_stale(before, now)), cli, before, after),
    ensures
        r matches TokenStep::Use(t) ==> {
            &&& before.token == Some(t)
            &&& after == before
            &&& !force
            &&& expiry_of(t.access_token@) matches Some(exp) && exp - now > 45
        },
        r is Fail ==> after == before,
        r matches TokenStep::Refresh(req) ==> {
            &&& before.token is Some
            &&& after.token == before.token
            &&& after.account == before.account
            &&& after.server == before.server
            &&& after.tz == before.tz
            &&& req@.headers.contains(
                ("Authorization"@, "Bearer "@ + before.token->Some_0.access_token@),
            )
            &&& req@.body == Some(
                json::json_compact(
                    Tree::Object(
                        map![
                            "refresh_token"@ => Tree::Str(before.token->Some_0.refresh_token@),
                        ],
                    ),
                ),
            )
            &&& known_clientid(before, cli) matches Some(id) ==> req@.headers.contains(
                ("EX-ClientId"@, id),
            ) && after == before
        },
{
    if r is Refresh {
        let t = before.token->Some_0;
        let id = choose|id: Seq<char>| #[trigger]
            client_chosen(before, after, cli, id) && r->Refresh_0@ == refresh_request(
                before,
                id,
                t.access_token@,
                t.refresh_token@,
            );
        refreshes_carry_both_tokens(before, id, t.access_token@, t.refresh_token@);
    }
}

/// The client id is the one that was given, else the configured one; an empty
/// one counts as none. Where there is neither, a fresh one is made up and kept,
/// so that the next run goes out under the same.
pub proof fn fresh_ids_are_kept(
    before: Config,
    after: Config,
    cli: Option<Seq<char>>,
    id: Seq<char>,
)
    requires
        cli matches Some(c) ==> c.len() == 0,
        client_chosen(before, after, cli, id),
    ensures
        before.client matches Some(client) ==> client.clientid@.len() > 0 ==> id
            == client.clientid@ && after == before,
        id.len() > 0,
        known_clientid(after, None) == Some(id),
        after.token == before.token,
        after.account == before.account,
{
}

/// A call is made again at most once, only where its token had expired and
/// that is wanted, and what was exchanged until then is kept; everything else
/// is handed on as it is.
pub proof fn calls_are_retried_once<T>(
    r: TracedResult<T>,
    attempt: Attempt,
    refresh_on_expired: bool,
)
    ensures
        after_call(r, attempt, refresh_on_expired) is Done <==> r is Ok,
        after_call(r, attempt, refresh_on_expired) matches AfterCall::Done(data, calls) ==> data
            == r->Ok_0.data && calls == r->Ok_0.calls,
        after_call(r, attempt, refresh_on_expired) is Retry <==> {
            &&& r is Err
            &&& r->Err_0.error is TokenExpired
            &&& refresh_on_expired
            &&& attempt is First
        },
        after_call(r, attempt, refresh_on_expired) matches AfterCall::Retry(calls, next) ==> {
            &&& calls == r->Err_0.calls
            &&& next is Second
            &&& forall|again: TracedResult<T>, wanted: bool|
                !(#[trigger] after_call(again, next, wanted) is Retry)
        },
        after_call(r, attempt, refresh_on_expired) matches AfterCall::Fail(e) ==> r == Err::<
            Traced<T>,
            TracedError,
        >(e),
{
}

/// The expiry of a token is read from its second part: decoded, parsed, and
/// looked up under `exp`.
pub proof fn expiries_are_read_from_the_payload(
    token: Seq<char>,
    part: Seq<char>,
    bytes: Seq<u8>,
    payload: Tree,
    exp: int,
)
    requires
        second_part(token) == Some(part),
        base64_url(part) == Some(bytes),
        json::json_parse_bytes(bytes) == Some(payload),
        i64::MIN <= exp <= i64::MAX,
    ensures
        payload_of(token) == Some(payload),
        json::member(payload, "exp"@) == Some(json::int_tree(exp)) ==> expiry_of(token) == Some(exp),
        json::member(payload, "exp"@) is None ==> expiry_of(token) is None,
{
}

/// Tokens that were adopted are those that came, and expire when the response
/// says so.
pub proof fn adopted_tokens_expire_as_told(t: Token, resp: AuthResponse, ts: i64)
    requires
        is_token_of(t, resp),
        resp.refresh_expires == auth::RefreshExpires::Timestamp(ts),
    ensures
        t.access_token == resp.access_token,
        t.refresh_token == resp.refresh_token,
        t.refresh_expires == ts,
{
}

} // verus!
