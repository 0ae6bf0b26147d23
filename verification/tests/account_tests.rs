use burrow_client::account::{
    account_url, check_token, error_message, listed_subdomains, release_url, resolve_server,
    resolve_token, subdomains_url, TokenError,
};
use burrow_client::config::{AuthConfig, Config};
use burrow_client::json::Json;
use burrow_client::text::{
    chars_of, decimal_string, eq_ignore_ascii_case, parse_u16, str_contains, str_eq,
    str_starts_with, to_ascii_lower,
};

fn config(token: Option<&str>, server: Option<&str>) -> Config {
    Config {
        auth: AuthConfig { token: token.map(|s| s.to_string()), server: server.map(|s| s.to_string()) },
    }
}

#[test]
fn default_config_is_empty() {
    assert_eq!(Config::default(), config(None, None));
    assert_eq!(AuthConfig::default(), AuthConfig { token: None, server: None });
}

#[test]
fn server_comes_from_the_command_line_first() {
    let c = config(None, Some("cfg.example"));
    assert_eq!(resolve_server(Some("cli.example".to_string()), &c), "cli.example");
    assert_eq!(resolve_server(None, &c), "cfg.example");
    assert_eq!(resolve_server(None, &config(None, None)), "localhost");
}

#[test]
fn token_comes_from_the_command_line_first() {
    let c = config(Some("brw_cfg"), None);
    assert_eq!(resolve_token(Some("brw_cli".to_string()), &c), Some("brw_cli".to_string()));
    assert_eq!(resolve_token(None, &c), Some("brw_cfg".to_string()));
    assert_eq!(resolve_token(None, &config(None, None)), None);
}

#[test]
fn pasted_tokens() {
    assert_eq!(check_token("  brw_abc123 \n"), Ok("brw_abc123".to_string()));
    assert_eq!(check_token("brw_"), Ok("brw_".to_string()));
    assert_eq!(check_token(" \t\n"), Err(TokenError::Missing));
    assert_eq!(check_token(""), Err(TokenError::Missing));
    assert_eq!(check_token("abc"), Err(TokenError::Format));
    assert_eq!(check_token("BRW_abc"), Err(TokenError::Format));
    assert_eq!(TokenError::Missing.message(), "No token provided");
    assert_eq!(
        TokenError::Format.message(),
        "Invalid token format. Tokens should start with 'brw_'"
    );
}

#[test]
fn urls() {
    assert_eq!(account_url("t.example"), "https://t.example/account");
    assert_eq!(subdomains_url("t.example"), "https://t.example/api/subdomains");
    assert_eq!(release_url("t.example", "foo"), "https://t.example/api/subdomains/foo");
}

#[test]
fn subdomain_listing() {
    let body = Json::parse(
        r#"{"subdomains":[{"subdomain":"foo","created_at":"2024-01-01"},{"subdomain":"bar"},{},7]}"#,
    )
    .unwrap();
    assert_eq!(
        listed_subdomains(&body),
        vec![
            ("foo".to_string(), "2024-01-01".to_string()),
            ("bar".to_string(), "?".to_string()),
            ("?".to_string(), "?".to_string()),
            ("?".to_string(), "?".to_string()),
        ]
    );
    assert_eq!(listed_subdomains(&Json::parse(r#"{"subdomains":null}"#).unwrap()), vec![]);
    assert_eq!(listed_subdomains(&Json::Null), vec![]);
}

#[test]
fn server_error_messages() {
    let body = Json::parse(r#"{"error":{"message":"not yours"}}"#).unwrap();
    assert_eq!(error_message(&body), "not yours");
    assert_eq!(error_message(&Json::parse(r#"{"error":"x"}"#).unwrap()), "Unknown error");
    assert_eq!(error_message(&Json::Null), "Unknown error");
}

#[test]
fn decimal_numerals() {
    assert_eq!(decimal_string(0), "0");
    assert_eq!(decimal_string(7), "7");
    assert_eq!(decimal_string(10), "10");
    assert_eq!(decimal_string(65535), "65535");
    assert_eq!(decimal_string(u64::MAX), "18446744073709551615");
}

#[test]
fn port_numbers() {
    assert_eq!(parse_u16("0"), Some(0));
    assert_eq!(parse_u16("8080"), Some(8080));
    assert_eq!(parse_u16("+443"), Some(443));
    assert_eq!(parse_u16("00080"), Some(80));
    assert_eq!(parse_u16("65535"), Some(65535));
    assert_eq!(parse_u16("65536"), None);
    assert_eq!(parse_u16("99999999999999999999"), None);
    assert_eq!(parse_u16(""), None);
    assert_eq!(parse_u16("+"), None);
    assert_eq!(parse_u16("-1"), None);
    assert_eq!(parse_u16("12a"), None);
    assert_eq!(parse_u16(" 12"), None);
    assert_eq!(parse_u16("١٢"), None);
}

#[test]
fn string_comparisons() {
    assert!(str_eq("héllo", "héllo"));
    assert!(!str_eq("a", "b"));
    assert!(!str_eq("a", "ab"));
    assert!(eq_ignore_ascii_case("Content-Type", "content-type"));
    assert!(eq_ignore_ascii_case("straße", "STRAßE"));
    assert!(!eq_ignore_ascii_case("É", "é"));
    assert!(!eq_ignore_ascii_case("k", "\u{212a}"));
    assert!(!eq_ignore_ascii_case("ab", "abc"));
    assert!(eq_ignore_ascii_case("", ""));
}

#[test]
fn substrings_and_prefixes() {
    assert_eq!(chars_of("héllo"), vec!['h', 'é', 'l', 'l', 'o']);
    assert!(str_contains("the connection is closing now", "closing"));
    assert!(str_contains("closing", "closing"));
    assert!(str_contains("anything", ""));
    assert!(str_contains("", ""));
    assert!(!str_contains("closin", "closing"));
    assert!(!str_contains("clos ing", "closing"));
    assert!(str_contains("ééclosingé", "closing"));
    assert!(str_starts_with("brw_x", "brw_"));
    assert!(str_starts_with("brw_", "brw_"));
    assert!(str_starts_with("x", ""));
    assert!(!str_starts_with("brw", "brw_"));
    assert!(!str_starts_with("xbrw_", "brw_"));
    assert_eq!(to_ascii_lower('A'), 'a');
    assert_eq!(to_ascii_lower('Z'), 'z');
    assert_eq!(to_ascii_lower('é'), 'é');
    assert_eq!(to_ascii_lower('['), '[');
}
