use h35_desktop::external::{
    eq_ignore_ascii_case, host_is_loopback, ipv4_is_loopback, ipv6_is_loopback,
    parsed_opens_externally, should_open_externally, ParsedUrl, UrlHost,
};

#[test]
fn loopback_preview_stays_in_webview() {
    assert!(!should_open_externally("http://127.0.0.1:8000/docs"));
    assert!(!should_open_externally("http://localhost:5173/"));
    assert!(!should_open_externally("https://[::1]/"));
    assert!(!should_open_externally("file:///tmp/index.html"));
    assert!(!should_open_externally("about:blank"));
}

#[test]
fn generic_web_and_mail_links_open_externally() {
    assert!(should_open_externally("https://github.com/koliyo/okmate"));
    assert!(should_open_externally("http://example.com/path"));
    assert!(should_open_externally("mailto:dev@example.com"));
}

#[test]
fn phone_links_and_case_variants() {
    assert!(should_open_externally("tel:+15551234"));
    assert!(should_open_externally("HTTPS://Example.COM/"));
    assert!(!should_open_externally("http://LOCALHOST:3000/"));
    assert!(!should_open_externally("http://127.8.9.10/"));
    assert!(should_open_externally("http://128.0.0.1/"));
    assert!(should_open_externally("http://[::2]/"));
}

#[test]
fn unparsable_links_stay_in_webview() {
    assert!(!should_open_externally(""));
    assert!(!should_open_externally("not a url"));
    assert!(!should_open_externally("/relative/path"));
    assert!(!should_open_externally("http://"));
}

#[test]
fn ascii_case_folding() {
    assert!(eq_ignore_ascii_case("LocalHost", "localhost"));
    assert!(eq_ignore_ascii_case("", ""));
    assert!(!eq_ignore_ascii_case("localhos", "localhost"));
    assert!(!eq_ignore_ascii_case("localhost.", "localhost"));
    assert!(eq_ignore_ascii_case("Straße", "STRAßE"));
    assert!(!eq_ignore_ascii_case("ÄB", "äb"));
}

#[test]
fn loopback_addresses() {
    assert!(ipv4_is_loopback(&[127, 0, 0, 1]));
    assert!(ipv4_is_loopback(&[127, 255, 255, 254]));
    assert!(!ipv4_is_loopback(&[10, 0, 0, 1]));
    assert!(ipv6_is_loopback(&[0, 0, 0, 0, 0, 0, 0, 1]));
    assert!(!ipv6_is_loopback(&[0, 0, 0, 0, 0, 0, 0, 0]));
    assert!(!ipv6_is_loopback(&[1, 0, 0, 0, 0, 0, 0, 1]));
    assert!(host_is_loopback(Some(&UrlHost::Domain("LOCALHOST".to_string()))));
    assert!(!host_is_loopback(Some(&UrlHost::Domain("example.com".to_string()))));
    assert!(!host_is_loopback(None));
}

#[test]
fn parsed_url_decisions() {
    let url = |scheme: &str, host: Option<UrlHost>| ParsedUrl { scheme: scheme.to_string(), host };
    assert!(parsed_opens_externally(&url("mailto", None)));
    assert!(parsed_opens_externally(&url("tel", None)));
    assert!(parsed_opens_externally(&url("https", None)));
    assert!(parsed_opens_externally(&url("http", Some(UrlHost::Domain("example.com".to_string())))));
    assert!(!parsed_opens_externally(&url("http", Some(UrlHost::Ipv4([127, 0, 0, 1])))));
    assert!(!parsed_opens_externally(&url("https", Some(UrlHost::Ipv6([0, 0, 0, 0, 0, 0, 0, 1])))));
    assert!(!parsed_opens_externally(&url("ftp", Some(UrlHost::Domain("example.com".to_string())))));
    assert!(!parsed_opens_externally(&url("file", None)));
}
