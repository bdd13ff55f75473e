use bex_auth::config::OidcConfig;
use bex_auth::error::AuthError;
use bex_auth::issuer::{default_issuer, issuer_for_url, ParsedUrl};

fn parsed(serialization: &str, scheme: &str, host: Option<&str>) -> ParsedUrl {
    ParsedUrl {
        serialization: serialization.to_string(),
        scheme: scheme.to_string(),
        host: host.map(str::to_string),
    }
}

#[test]
fn default_issuer_prepends_oauth_subdomain() {
    assert_eq!(default_issuer("https://bex.co"), "https://oauth.bex.co");
    assert_eq!(default_issuer("https://bex.co/"), "https://oauth.bex.co");
    assert_eq!(default_issuer("https://oauth.bex.co"), "https://oauth.bex.co");
}

#[test]
fn default_issuer_keeps_scheme_and_host_only() {
    assert_eq!(default_issuer("http://user:pw@Example.COM:8080/a?b#c"), "http://oauth.example.com");
    assert_eq!(default_issuer("https://oauth.example.com/x"), "https://oauth.example.com");
    assert_eq!(default_issuer("https://oauthx.example.com"), "https://oauth.oauthx.example.com");
    assert_eq!(default_issuer("http://localhost:3000"), "http://oauth.localhost");
}

#[test]
fn issuer_of_an_issuer_is_itself() {
    for server in [
        "https://bex.co",
        "http://user@Example.COM:8080/a?b#c",
        "https://oauth.example.com/x",
        "http://localhost:3000",
        "https://1a.b-2.c3.",
        "https://-a-.b--c/",
        "https://a..b",
        "https://x1",
        "https://b\u{fc}cher.example",
        "https://_a.b_c",
    ] {
        let issuer = default_issuer(server);
        assert_eq!(default_issuer(&issuer), issuer, "{server}");
    }
    assert_eq!(default_issuer("https://x1"), "https://oauth.x1");
    assert_eq!(default_issuer("https://1a.b-2.c3."), "https://oauth.1a.b-2.c3.");
}

#[test]
fn issuer_on_an_address_is_no_url() {
    assert_eq!(default_issuer("http://127.0.0.1"), "http://oauth.127.0.0.1");
    assert_eq!(default_issuer("http://oauth.127.0.0.1"), "https://oauth.bex.co");
    assert_eq!(default_issuer("http://[::1]/"), "http://oauth.[::1]");
}

fn issuer_of(source: &str) -> Option<ParsedUrl> {
    OidcConfig::from_env("", Some(source.to_string()), None, None).ok().map(|c| c.issuer)
}

#[test]
fn domain_names_parse_to_themselves_behind_a_label() {
    for source in [
        "bex.co", "localhost", "1a.b-2.c3.", "-a-.b--c", "a..b", "x1", "0x.a", "a.-", ".", "1..",
        ".a", "_dmarc.bex.co", "a!$&'()*+,;=`{}~b", "XN--BCHER-KVA.Example", "b\u{fc}cher.example",
        "stra\u{df}e.de", "\u{5d0}\u{5d1}.\u{5d2}", "a.\u{5d0}", "\u{660}\u{627}.x",
        "\u{928}\u{940}\u{200d}.x", "\u{ff58}n--bcher-kva", "a\u{2260}b", "a=\u{338}b",
        "\u{1f600}.ws", "\u{3002}a", "e\u{301}.com", "\u{212b}.com",
    ] {
        for scheme in ["http", "https"] {
            let Some(parsed) = issuer_of(&format!("{scheme}://{source}")) else {
                continue;
            };
            let host = parsed.host.unwrap();
            for domain in [host.clone(), format!("oauth.{host}"), format!("sub.{host}")] {
                let again = issuer_of(&format!("{scheme}://{domain}")).unwrap();
                assert_eq!(again.serialization, format!("{scheme}://{domain}/"));
                assert_eq!(again.scheme, scheme);
                assert_eq!(again.host, Some(domain));
            }
        }
    }
}

fn is_address(host: &str) -> bool {
    let quad: Vec<&str> = host.split('.').collect();
    let digits = |part: &&str| !part.is_empty() && part.bytes().all(|b| b.is_ascii_digit());
    host.starts_with('[') || (quad.len() == 4 && quad.iter().all(digits))
}

fn issuer_is_its_own(server: &str) {
    let host = issuer_of(server).and_then(|parsed| parsed.host);
    if host.is_some_and(|host| !is_address(&host)) {
        let issuer = default_issuer(server);
        assert_eq!(default_issuer(&issuer), issuer, "{server:?}");
    }
}

#[test]
fn every_character_of_a_host_keeps_the_issuer_its_own() {
    for c in '\0'..=char::MAX {
        issuer_is_its_own(&format!("https://a{c}b.example"));
    }
}

#[test]
fn every_character_before_a_mark_keeps_the_issuer_its_own() {
    for c in '\u{80}'..='\u{2fa1f}' {
        issuer_is_its_own(&format!("https://{c}\u{338}.example"));
    }
}

#[test]
fn composed_characters_keep_the_issuer_its_own() {
    for mark in [
        '\u{300}', '\u{301}', '\u{302}', '\u{303}', '\u{304}', '\u{306}', '\u{307}', '\u{308}',
        '\u{30c}', '\u{313}', '\u{314}', '\u{323}', '\u{327}', '\u{342}', '\u{345}', '\u{3099}',
    ] {
        for c in '\u{21}'..='\u{3100}' {
            issuer_is_its_own(&format!("https://a{c}{mark}\u{301}.example"));
        }
    }
}

#[test]
fn every_character_alone_keeps_the_issuer_its_own() {
    for c in '\u{80}'..='\u{2fa1f}' {
        issuer_is_its_own(&format!("https://{c}.{c}{c}"));
    }
}

#[test]
fn longest_internationalized_labels_are_written_but_not_read() {
    let label: String =
        (0..999u32).map(|i| char::from_u32(0x4e00 + (i * 577 % 999) * 20).unwrap()).collect();
    let issuer = default_issuer(&format!("https://{label}.example"));
    assert!(issuer.starts_with("https://oauth.xn--"));
    assert!(issuer.len() > "https://oauth.xn--.example".len() + 2000);
    assert_eq!(default_issuer(&issuer), "https://oauth.bex.co");
}

#[test]
fn server_without_a_host_implies_the_public_issuer() {
    assert_eq!(default_issuer(""), "https://oauth.bex.co");
    assert_eq!(default_issuer("bex.co"), "https://oauth.bex.co");
    assert_eq!(default_issuer("mailto:a@bex.co"), "https://oauth.bex.co");
}

#[test]
fn issuer_follows_from_the_parts_of_a_url() {
    let server = parsed("https://a.b/", "https", Some("a.b"));
    assert_eq!(issuer_for_url(Some(&server)), "https://oauth.a.b");
    let provider = parsed("http://oauth.a.b/", "http", Some("oauth.a.b"));
    assert_eq!(issuer_for_url(Some(&provider)), "http://oauth.a.b");
    let hostless = parsed("data:x", "data", None);
    assert_eq!(issuer_for_url(Some(&hostless)), "https://oauth.bex.co");
    assert_eq!(issuer_for_url(None), "https://oauth.bex.co");
}

#[test]
fn defaults_target_the_public_provider() {
    let config = OidcConfig::from_env("https://bex.co", None, None, None).unwrap();
    assert_eq!(config.issuer.serialization, "https://oauth.bex.co/");
    assert_eq!(config.issuer.scheme, "https");
    assert_eq!(config.issuer.host.as_deref(), Some("oauth.bex.co"));
    assert_eq!(config.client_id, "bex-desktop");
    assert_eq!(config.scopes, ["openid", "offline_access", "bex.read", "bex.write"]);
}

#[test]
fn every_knob_can_be_overridden() {
    let config = OidcConfig::from_env(
        "https://bex.co",
        Some("HTTP://Id.Example:80/realm".to_string()),
        Some("cli".to_string()),
        Some("  openid\t profile\u{a0}email\n".to_string()),
    )
    .unwrap();
    assert_eq!(config.issuer.serialization, "http://id.example/realm");
    assert_eq!(config.client_id, "cli");
    assert_eq!(config.scopes, ["openid", "profile", "email"]);
}

#[test]
fn overrides_may_be_empty() {
    let config =
        OidcConfig::from_env("", None, Some(String::new()), Some(" ".to_string())).unwrap();
    assert_eq!(config.issuer.serialization, "https://oauth.bex.co/");
    assert_eq!(config.client_id, "");
    assert!(config.scopes.is_empty());
}

#[test]
fn issuer_has_to_be_a_url() {
    let result = OidcConfig::from_env("https://bex.co", Some("not a url".to_string()), None, None);
    assert!(matches!(
        result,
        Err(AuthError::InvalidIssuer(url::ParseError::RelativeUrlWithoutBase))
    ));
    let result = OidcConfig::with_issuer(Err(url::ParseError::EmptyHost), None, None);
    assert!(matches!(result, Err(AuthError::InvalidIssuer(url::ParseError::EmptyHost))));
}

#[test]
fn parsed_issuer_is_kept() {
    let issuer = parsed("x://y", "x", Some("y"));
    let config =
        OidcConfig::with_issuer(Ok(issuer), Some("c".to_string()), Some("a b".to_string())).unwrap();
    assert_eq!(config.issuer.serialization, "x://y");
    assert_eq!(config.client_id, "c");
    assert_eq!(config.scopes, ["a", "b"]);
}
