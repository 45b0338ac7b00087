use pg_durable::address::{check_blocked_ip, is_ssrf_block_error, screen_address, IpAddress};
use pg_durable::ssrf::{
    accept_parse, check_target, is_allowed_domain, parse_request_url, validate_allowlist,
    validate_scheme, HttpPolicy,
};
use pg_durable::url::ParsedUrl;

const POLICIES: [HttpPolicy; 4] = [
    HttpPolicy::Disabled,
    HttpPolicy::AzureDomains,
    HttpPolicy::TestDomains,
    HttpPolicy::AllowAll,
];

fn parsed(text: &str) -> ParsedUrl {
    match parse_request_url(text) {
        Ok(url) => url,
        Err(e) => panic!("{e}"),
    }
}

#[test]
fn parses_and_canonicalises() {
    let url = parsed("HTTPS://User:Pw@Example.COM:443/a/../b?x=1#frag");
    assert_eq!(url.href, "https://User:Pw@example.com/b?x=1#frag");
    assert_eq!(url.scheme, "https");
    assert!(url.has_authority);
    assert_eq!(url.username, "User");
    assert_eq!(url.password.as_deref(), Some("Pw"));
    assert_eq!(url.host.as_deref(), Some("example.com"));
    assert_eq!(url.domain.as_deref(), Some("example.com"));
    assert_eq!(url.port, None);
    assert_eq!(url.path, "/b");
    assert_eq!(url.query.as_deref(), Some("x=1"));
    assert_eq!(url.fragment.as_deref(), Some("frag"));
}

#[test]
fn refuses_malformed_urls() {
    match parse_request_url("not a url") {
        Ok(_) => panic!("must be refused"),
        Err(e) => assert_eq!(e, "Blocked: malformed URL: relative URL without a base"),
    }
}

#[test]
fn restricted_builds_take_https_alone() {
    for policy in POLICIES {
        assert_eq!(validate_scheme(policy, &parsed("https://a.b/")), Ok(()));
    }
    for policy in [HttpPolicy::Disabled, HttpPolicy::AzureDomains, HttpPolicy::TestDomains] {
        assert_eq!(
            validate_scheme(policy, &parsed("http://a.b/")),
            Err("Blocked: plaintext HTTP is not permitted in restricted builds. HTTPS is required.".to_string())
        );
        assert_eq!(
            validate_scheme(policy, &parsed("file:///etc/passwd")),
            Err("Blocked: unsupported URL scheme 'file'. Only https is allowed.".to_string())
        );
    }
    assert_eq!(validate_scheme(HttpPolicy::AllowAll, &parsed("http://a.b/")), Ok(()));
    assert_eq!(
        validate_scheme(HttpPolicy::AllowAll, &parsed("gopher://a.b/")),
        Err("Blocked: unsupported URL scheme 'gopher'. Only http and https is allowed.".to_string())
    );
}

#[test]
fn approves_subdomains_and_not_the_apex() {
    let azure = HttpPolicy::AzureDomains;
    assert!(is_allowed_domain(azure, "acct.blob.core.windows.net"));
    assert!(is_allowed_domain(azure, "a.b.azurewebsites.net"));
    assert!(!is_allowed_domain(azure, "blob.core.windows.net"));
    assert!(!is_allowed_domain(azure, ".blob.core.windows.net"));
    assert!(!is_allowed_domain(azure, "evilblob.core.windows.net"));
    assert!(!is_allowed_domain(azure, "acct.blob.core.windows.net.evil.example"));
}

#[test]
fn exact_names_are_exact() {
    let azure = HttpPolicy::AzureDomains;
    assert!(is_allowed_domain(azure, "api.github.com"));
    assert!(!is_allowed_domain(azure, "x.api.github.com"));
    assert!(!is_allowed_domain(azure, "evilapi.github.com"));
    assert!(!is_allowed_domain(azure, "github.com"));
    assert!(!is_allowed_domain(azure, "httpbingo.org"));
    assert!(is_allowed_domain(HttpPolicy::TestDomains, "httpbingo.org"));
    assert!(!is_allowed_domain(HttpPolicy::TestDomains, "x.httpbingo.org"));
    assert!(is_allowed_domain(HttpPolicy::TestDomains, "api.github.com"));
    assert!(!is_allowed_domain(HttpPolicy::Disabled, "api.github.com"));
    assert!(is_allowed_domain(HttpPolicy::AllowAll, "evil.example"));
}

#[test]
fn allowlist_answers() {
    let azure = HttpPolicy::AzureDomains;
    assert_eq!(
        validate_allowlist(azure, &parsed("https://acct.blob.core.windows.net/c")),
        Ok(())
    );
    assert_eq!(
        validate_allowlist(azure, &parsed("https://evil.example/")),
        Err("Blocked: 'evil.example' is not in the allowed endpoint list. Only requests to approved Azure service domains are permitted.".to_string())
    );
    let bare = "Blocked: requests to bare IP addresses are not permitted. Use an approved Azure service hostname instead.";
    for url in [
        "https://169.254.169.254/",
        "https://8.8.8.8/",
        "https://[::1]/",
        "https://2130706433/",
    ] {
        assert_eq!(validate_allowlist(azure, &parsed(url)), Err(bare.to_string()));
    }
    assert_eq!(
        validate_allowlist(HttpPolicy::Disabled, &parsed("https://acct.blob.core.windows.net/")),
        Err("Blocked: outbound HTTP requests are disabled. Rebuild with the 'http-allow-azure-domains' Cargo feature to enable them.".to_string())
    );
    assert_eq!(validate_allowlist(HttpPolicy::AllowAll, &parsed("http://127.0.0.1/")), Ok(()));
}

#[test]
fn judges_the_host_that_is_requested() {
    let url = parsed("https://evil.example\\@acct.blob.core.windows.net/");
    assert_eq!(url.domain.as_deref(), Some("evil.example"));
    assert!(validate_allowlist(HttpPolicy::AzureDomains, &url).is_err());
    let encoded = parsed("https://acct.blob.core.windows%2enet/");
    assert_eq!(encoded.domain.as_deref(), Some("acct.blob.core.windows.net"));
    assert!(validate_allowlist(HttpPolicy::AzureDomains, &encoded).is_ok());
}

#[test]
fn ssrf_blocks_cgnat_range() {
    assert!(check_blocked_ip(IpAddress::V4(100, 64, 0, 1)).is_some());
    assert!(check_blocked_ip(IpAddress::V4(100, 127, 255, 254)).is_some());
    assert!(check_blocked_ip(IpAddress::V4(100, 128, 0, 1)).is_none());
    assert!(check_blocked_ip(IpAddress::V4(100, 63, 255, 255)).is_none());
}

#[test]
fn blocks_private_ipv4_ranges() {
    let cases = [
        (IpAddress::V4(0, 1, 2, 3), Some("0.0.0.0/8")),
        (IpAddress::V4(10, 255, 255, 255), Some("10.0.0.0/8")),
        (IpAddress::V4(11, 0, 0, 0), None),
        (IpAddress::V4(127, 0, 0, 1), Some("127.0.0.0/8")),
        (IpAddress::V4(169, 254, 169, 254), Some("169.254.0.0/16")),
        (IpAddress::V4(169, 253, 255, 255), None),
        (IpAddress::V4(172, 15, 255, 255), None),
        (IpAddress::V4(172, 16, 0, 0), Some("172.16.0.0/12")),
        (IpAddress::V4(172, 31, 255, 255), Some("172.16.0.0/12")),
        (IpAddress::V4(172, 32, 0, 0), None),
        (IpAddress::V4(192, 168, 1, 1), Some("192.168.0.0/16")),
        (IpAddress::V4(192, 169, 0, 0), None),
        (IpAddress::V4(8, 8, 8, 8), None),
    ];
    for (address, range) in cases {
        assert_eq!(check_blocked_ip(address), range);
    }
}

#[test]
fn blocks_private_ipv6_ranges() {
    let cases = [
        ([0, 0, 0, 0, 0, 0, 0, 0], Some("::/128")),
        ([0, 0, 0, 0, 0, 0, 0, 1], Some("::1/128")),
        ([0, 0, 0, 0, 0, 0, 0, 2], None),
        ([0xfe80, 0, 0, 0, 0, 0, 0, 1], Some("fe80::/10")),
        ([0xfebf, 0xffff, 0, 0, 0, 0, 0, 1], Some("fe80::/10")),
        ([0xfec0, 0, 0, 0, 0, 0, 0, 1], None),
        ([0xfc00, 0, 0, 0, 0, 0, 0, 1], Some("fc00::/7")),
        ([0xfdff, 0, 0, 0, 0, 0, 0, 1], Some("fc00::/7")),
        ([0x2606, 0x4700, 0, 0, 0, 0, 0, 0x1111], None),
    ];
    for (segments, range) in cases {
        assert_eq!(check_blocked_ip(IpAddress::V6(segments)), range);
    }
}

#[test]
fn mapped_addresses_are_unwrapped() {
    assert_eq!(
        check_blocked_ip(IpAddress::V6([0, 0, 0, 0, 0, 0xffff, 0xa9fe, 0xa9fe])),
        Some("169.254.0.0/16")
    );
    assert_eq!(
        check_blocked_ip(IpAddress::V6([0, 0, 0, 0, 0, 0xffff, 0x0808, 0x0808])),
        None
    );
}

#[test]
fn screening_names_the_host_and_not_the_address() {
    let message = "Blocked: the resolved IP address for 'a.azurewebsites.net' is in a restricted range. df.http() cannot access private or internal network addresses.";
    assert_eq!(
        screen_address("a.azurewebsites.net", IpAddress::V4(10, 0, 0, 1)),
        Err(message.to_string())
    );
    assert_eq!(screen_address("a.azurewebsites.net", IpAddress::V4(8, 8, 8, 8)), Ok(()));
    assert!(is_ssrf_block_error(message));
    assert!(is_ssrf_block_error(&format!("dns error: {message} (retry)")));
    assert!(!is_ssrf_block_error("dns error: no such host"));
}

#[test]
fn targets_are_judged_in_order() {
    let judged = |policy: HttpPolicy, text: &str| match check_target(policy, parse_request_url(text)) {
        Ok(href) => (href, ""),
        Err(refusal) => (refusal.message, refusal.reason),
    };
    let azure = HttpPolicy::AzureDomains;
    assert_eq!(
        judged(azure, "https://ACCT.azurewebsites.net:443/x"),
        ("https://acct.azurewebsites.net/x".to_string(), "")
    );
    assert_eq!(judged(azure, "no url").1, "malformed");
    assert_eq!(judged(azure, "http://10.0.0.1/").1, "scheme");
    assert_eq!(judged(azure, "https://10.0.0.1/").1, "allowlist");
    assert_eq!(
        judged(HttpPolicy::AllowAll, "http://10.0.0.1/"),
        ("http://10.0.0.1/".to_string(), "")
    );
}

#[test]
fn failed_parses_are_answered() {
    match accept_parse(Err("empty host".to_string())) {
        Ok(_) => panic!("must be refused"),
        Err(e) => assert_eq!(e, "Blocked: malformed URL: empty host"),
    }
}
