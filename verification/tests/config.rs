use oray_tools::config::{
    Account, Client, Config, Server, Token, DEFAULT_API_BASE, DEFAULT_SHIELD_BASE,
    DEFAULT_SLAPI_BASE,
};

#[test]
fn server_defaults() {
    let s = Server::default().normalized();
    assert_eq!(s.api_base, DEFAULT_API_BASE);
    assert_eq!(s.slapi_base, DEFAULT_SLAPI_BASE);
    assert_eq!(s.shield_base, DEFAULT_SHIELD_BASE);
}

/// A config without `shield_base` still has one after normalization: the
/// default shield service.
#[test]
fn legacy_server_without_shield_base() {
    let raw = r#"
api_base = "https://api.example.com"
slapi_base = "https://slapi.example.net"
"#;
    let table: toml::Table = toml::from_str(raw).unwrap();
    let field = |name: &str| -> String {
        table.get(name).and_then(|v| v.as_str()).unwrap_or_default().to_string()
    };
    let parsed = Server {
        api_base: field("api_base"),
        slapi_base: field("slapi_base"),
        shield_base: field("shield_base"),
    };
    assert!(parsed.shield_base.is_empty(), "field is absent in the file");
    let s = parsed.normalized();
    assert_eq!(s.api_base, "https://api.example.com");
    assert_eq!(s.shield_base, DEFAULT_SHIELD_BASE);
}

#[test]
fn server_trailing_slash_normalized() {
    let s = Server {
        api_base: "https://api.example.com/".into(),
        slapi_base: "".into(),
        shield_base: "https://shield.example.com/".into(),
    }
    .normalized();
    assert_eq!(s.api_base, "https://api.example.com");
    assert_eq!(s.slapi_base, DEFAULT_SLAPI_BASE);
    assert_eq!(s.shield_base, "https://shield.example.com");
}

#[test]
fn normalizing_twice_changes_nothing() {
    let once = Server {
        api_base: "https://a//".into(),
        slapi_base: "".into(),
        shield_base: "https://s".into(),
    }
    .normalized();
    let twice = once.clone().normalized();
    assert_eq!(once.api_base, twice.api_base);
    assert_eq!(once.slapi_base, twice.slapi_base);
    assert_eq!(once.shield_base, twice.shield_base);
    assert_eq!(once.api_base, "https://a");
}

#[test]
fn default_config_has_no_device_storage() {
    let cfg = Config::default();
    assert!(cfg.server.is_none());
    assert!(cfg.token.is_none());
}

#[test]
fn configured_servers_are_used() {
    let mut cfg = Config::default();
    assert_eq!(cfg.server().api_base, DEFAULT_API_BASE);
    cfg.server = Some(Server {
        api_base: "https://api.example.com/".into(),
        slapi_base: "https://slapi.example.com".into(),
        shield_base: "".into(),
    });
    let s = cfg.server();
    assert_eq!(s.api_base, "https://api.example.com");
    assert_eq!(s.slapi_base, "https://slapi.example.com");
    assert_eq!(s.shield_base, DEFAULT_SHIELD_BASE);
}

#[test]
fn copies_hold_the_same() {
    let mut cfg = Config::default();
    cfg.account = Some(Account { account: "a".into(), password_md5: "b".into() });
    cfg.token = Some(Token {
        access_token: "c".into(),
        refresh_token: "d".into(),
        refresh_expires: 7,
    });
    cfg.client = Some(Client { clientid: "e".into() });
    cfg.tz = Some("+8h".into());
    let copy = cfg.clone();
    assert_eq!(copy.account.unwrap().password_md5, "b");
    assert_eq!(copy.token.unwrap().refresh_expires, 7);
    assert_eq!(copy.client.unwrap().clientid, "e");
    assert_eq!(copy.tz.as_deref(), Some("+8h"));
    assert!(copy.server.is_none());
    assert_eq!(Account::default().account, "");
    assert_eq!(Token::default().refresh_expires, 0);
    assert_eq!(Client::default().clientid, "");
}
