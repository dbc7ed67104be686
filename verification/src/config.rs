//! Local configuration: account, trusted client id, tokens and servers. All
//! device data is fetched live.

use crate::text;
use vstd::prelude::*;

verus! {

pub const DEFAULT_API_BASE: &'static str = "https://api-std.sunlogin.oray.com";

pub const DEFAULT_SLAPI_BASE: &'static str = "https://slapi.oray.net";

/// Shield service that sends SMS login codes.
pub const DEFAULT_SHIELD_BASE: &'static str = "https://shield-api-v3.oray.com";

#[derive(Debug)]
pub struct Account {
    pub account: String,
    /// md5 hex (lowercase) of the plaintext password.
    pub password_md5: String,
}

impl Clone for Account {
    fn clone(&self) -> (r: Self)
        ensures
            r == *self,
    {
        Account { account: self.account.clone(), password_md5: self.password_md5.clone() }
    }
}

impl Default for Account {
    fn default() -> (r: Self)
        ensures
            r.account@.len() == 0,
            r.password_md5@.len() == 0,
    {
        Account { account: String::new(), password_md5: String::new() }
    }
}

#[derive(Debug)]
pub struct Token {
    pub access_token: String,
    pub refresh_token: String,
    /// Absolute unix timestamp when `refresh_token` expires.
    pub refresh_expires: i64,
}

impl Clone for Token {
    fn clone(&self) -> (r: Self)
        ensures
            r == *self,
    {
        Token {
            access_token: self.access_token.clone(),
            refresh_token: self.refresh_token.clone(),
            refresh_expires: self.refresh_expires,
        }
    }
}

impl Default for Token {
    fn default() -> (r: Self)
        ensures
            r.access_token@.len() == 0,
            r.refresh_token@.len() == 0,
            r.refresh_expires == 0,
    {
        Token { access_token: String::new(), refresh_token: String::new(), refresh_expires: 0 }
    }
}

#[derive(Debug)]
pub struct Client {
    pub clientid: String,
}

impl Clone for Client {
    fn clone(&self) -> (r: Self)
        ensures
            r == *self,
    {
        Client { clientid: self.clientid.clone() }
    }
}

impl Default for Client {
    fn default() -> (r: Self)
        ensures
            r.clientid@.len() == 0,
    {
        Client { clientid: String::new() }
    }
}

#[derive(Debug)]
pub struct Server {
    pub api_base: String,
    pub slapi_base: String,
    /// Shield service that sends SMS login codes; empty where a file omits it.
    pub shield_base: String,
}

/// The base URLs of a [`Server`].
pub struct ServerView {
    pub api_base: Seq<char>,
    pub slapi_base: Seq<char>,
    pub shield_base: Seq<char>,
}

impl View for Server {
    type V = ServerView;

    open spec fn view(&self) -> ServerView {
        ServerView {
            api_base: self.api_base@,
            slapi_base: self.slapi_base@,
            shield_base: self.shield_base@,
        }
    }
}

impl Clone for Server {
    fn clone(&self) -> (r: Self)
        ensures
            r == *self,
    {
        Server {
            api_base: self.api_base.clone(),
            slapi_base: self.slapi_base.clone(),
            shield_base: self.shield_base.clone(),
        }
    }
}

/// The servers that are used where none are configured.
pub open spec fn default_server() -> ServerView {
    ServerView {
        api_base: DEFAULT_API_BASE@,
        slapi_base: DEFAULT_SLAPI_BASE@,
        shield_base: DEFAULT_SHIELD_BASE@,
    }
}

impl Default for Server {
    fn default() -> (r: Self)
        ensures
            r@ == default_server(),
    {
        Server {
            api_base: DEFAULT_API_BASE.to_owned(),
            slapi_base: DEFAULT_SLAPI_BASE.to_owned(),
            shield_base: DEFAULT_SHIELD_BASE.to_owned(),
        }
    }
}

/// A base URL as it is used: the default where it is empty, else without
/// trailing slashes.
pub open spec fn base_or(base: Seq<char>, default: Seq<char>) -> Seq<char> {
    if base.len() == 0 {
        default
    } else {
        text::trim_end_char(base, '/')
    }
}

/// A base URL as it is used.
fn pick_base(base: &String, default: &str) -> (r: String)
    ensures
        r@ == base_or(base@, default@),
{
    if text::is_empty(base) {
        default.to_owned()
    } else {
        text::without_trailing(base.as_str(), '/')
    }
}

/// Base URLs as they are used.
pub open spec fn normalized_server(s: ServerView) -> ServerView {
    ServerView {
        api_base: base_or(s.api_base, DEFAULT_API_BASE@),
        slapi_base: base_or(s.slapi_base, DEFAULT_SLAPI_BASE@),
        shield_base: base_or(s.shield_base, DEFAULT_SHIELD_BASE@),
    }
}

impl Server {
    /// The servers as they are used: empty ones replaced by the defaults, the
    /// others without trailing slashes.
    pub fn normalized(self) -> (r: Server)
        ensures
            r@ == normalized_server(self@),
    {
        Server {
            api_base: pick_base(&self.api_base, DEFAULT_API_BASE),
            slapi_base: pick_base(&self.slapi_base, DEFAULT_SLAPI_BASE),
            shield_base: pick_base(&self.shield_base, DEFAULT_SHIELD_BASE),
        }
    }
}

/// Local configuration. Only authentication material is stored.
#[derive(Debug)]
pub struct Config {
    pub account: Option<Account>,
    pub token: Option<Token>,
    pub client: Option<Client>,
    pub server: Option<Server>,
    /// Timezone offset of the plugs, in the format of `--tz`.
    pub tz: Option<String>,
}

impl Clone for Config {
    fn clone(&self) -> (r: Self)
        ensures
            r == *self,
    {
        Config {
            account: match &self.account {
                Some(a) => Some(a.clone()),
                None => None,
            },
            token: match &self.token {
                Some(t) => Some(t.clone()),
                None => None,
            },
            client: match &self.client {
                Some(c) => Some(c.clone()),
                None => None,
            },
            server: match &self.server {
                Some(s) => Some(s.clone()),
                None => None,
            },
            tz: match &self.tz {
                Some(z) => Some(z.clone()),
                None => None,
            },
        }
    }
}

impl Default for Config {
    fn default() -> (r: Self)
        ensures
            r == (Config { account: None, token: None, client: None, server: None, tz: None }),
    {
        Config { account: None, token: None, client: None, server: None, tz: None }
    }
}

impl Config {
    /// The servers that this configuration talks to.
    pub open spec fn servers(&self) -> ServerView {
        normalized_server(
            match self.server {
                Some(s) => s@,
                None => default_server(),
            },
        )
    }

    /// The servers that this configuration talks to.
    pub fn server(&self) -> (r: Server)
        ensures
            r@ == self.servers(),
    {
        match &self.server {
            Some(s) => s.clone().normalized(),
            None => Server::default().normalized(),
        }
    }
}

// ---------------------------------------------------------------------- laws

/// Trimming trailing slashes twice is trimming them once.
proof fn trimmed_once(s: Seq<char>)
    ensures
        text::trim_end_char(text::trim_end_char(s, '/'), '/') == text::trim_end_char(s, '/'),
    decreases s.len(),
{
    if s.len() > 0 && s.last() == '/' {
        trimmed_once(s.drop_last());
    }
}

/// Normalizing servers twice is normalizing them once, unless a base URL is
/// made of slashes alone.
pub proof fn normalizing_is_idempotent(s: ServerView)
    requires
        text::trim_end_char(s.api_base, '/').len() > 0 || s.api_base.len() == 0,
        text::trim_end_char(s.slapi_base, '/').len() > 0 || s.slapi_base.len() == 0,
        text::trim_end_char(s.shield_base, '/').len() > 0 || s.shield_base.len() == 0,
    ensures
        normalized_server(normalized_server(s)) == normalized_server(s),
{
    reveal_strlit("https://api-std.sunlogin.oray.com");
    reveal_strlit("https://slapi.oray.net");
    reveal_strlit("https://shield-api-v3.oray.com");
    trimmed_once(s.api_base);
    trimmed_once(s.slapi_base);
    trimmed_once(s.shield_base);
}

/// Each server is used for itself: a base that is configured is used without
/// trailing slashes, one that is left empty falls back to its own default, and
/// neither rests on the other bases.
pub proof fn servers_are_kept_apart(s: ServerView, other: ServerView)
    ensures
        s.api_base.len() == 0 ==> normalized_server(s).api_base
            == "https://api-std.sunlogin.oray.com"@,
        s.slapi_base.len() == 0 ==> normalized_server(s).slapi_base == "https://slapi.oray.net"@,
        s.shield_base.len() == 0 ==> normalized_server(s).shield_base
            == "https://shield-api-v3.oray.com"@,
        s.api_base.len() > 0 && s.api_base.last() != '/' ==> normalized_server(s).api_base
            == s.api_base,
        s.slapi_base.len() > 0 && s.slapi_base.last() != '/' ==> normalized_server(s).slapi_base
            == s.slapi_base,
        s.shield_base.len() > 0 && s.shield_base.last() != '/' ==> normalized_server(s).shield_base
            == s.shield_base,
        s.api_base == other.api_base ==> normalized_server(s).api_base == normalized_server(
            other,
        ).api_base,
        s.slapi_base == other.slapi_base ==> normalized_server(s).slapi_base == normalized_server(
            other,
        ).slapi_base,
        s.shield_base == other.shield_base ==> normalized_server(s).shield_base
            == normalized_server(other).shield_base,
{
}

/// A trailing slash makes no difference, however many there are.
pub proof fn trailing_slashes_make_no_difference(base: Seq<char>, default: Seq<char>)
    requires
        base.len() > 0,
    ensures
        base_or(base.push('/'), default) == base_or(base, default),
{
    assert(base.push('/').drop_last() =~= base);
}

/// A configuration without servers talks to the defaults, and one with servers
/// to those.
pub proof fn configured_servers_are_used(cfg: Config)
    ensures
        cfg.server is None ==> cfg.servers() == (ServerView {
            api_base: "https://api-std.sunlogin.oray.com"@,
            slapi_base: "https://slapi.oray.net"@,
            shield_base: "https://shield-api-v3.oray.com"@,
        }),
        cfg.server matches Some(s) ==> cfg.servers() == normalized_server(s@),
{
    reveal_strlit("https://api-std.sunlogin.oray.com");
    reveal_strlit("https://slapi.oray.net");
    reveal_strlit("https://shield-api-v3.oray.com");
    assert("https://api-std.sunlogin.oray.com"@.last() == 'm');
    assert("https://slapi.oray.net"@.last() == 't');
    assert("https://shield-api-v3.oray.com"@.last() == 'm');
}

} // verus!
