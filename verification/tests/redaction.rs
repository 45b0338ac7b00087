use pg_durable::redact::{redact_parse, redact_report, redact_url, redact_urls_in};
use pg_durable::url::ParsedUrl;

#[test]
fn query_values_are_masked() {
    assert_eq!(
        redact_url("https://acct.blob.core.windows.net/c/b?sv=2020&sig=SECRET-REDACTED"),
        "https://acct.blob.core.windows.net/c/b?sv=<redacted>&sig=<redacted>"
    );
}

#[test]
fn benign_values_are_shown() {
    assert_eq!(
        redact_url("https://h.example/?api-version=1&apiversion=2&comp=list&restype=container&x=1"),
        "https://h.example/?api-version=1&apiversion=2&comp=list&restype=container&x=<redacted>"
    );
}

#[test]
fn bare_tokens_are_masked_whole() {
    assert_eq!(
        redact_url("https://h.example/?token&a=b&"),
        "https://h.example/?<redacted>&a=<redacted>&<redacted>"
    );
}

#[test]
fn userinfo_and_fragment_are_masked() {
    assert_eq!(
        redact_url("https://user:pw@h.example:8443/p#frag"),
        "https://<redacted>@h.example:8443/p#<redacted>"
    );
    assert_eq!(redact_url("https://user@h.example/"), "https://<redacted>@h.example/");
}

#[test]
fn plain_urls_are_shown_normalised() {
    assert_eq!(redact_url("https://H.Example:443/Path"), "https://h.example/Path");
    assert_eq!(redact_url("https://[::1]:9/x"), "https://[::1]:9/x");
    assert_eq!(redact_url("mailto:someone"), "mailto:someone");
}

#[test]
fn unparseable_text_is_masked_whole() {
    assert_eq!(redact_url("sig=abc not a url"), "<redacted>");
    assert_eq!(redact_url(""), "<redacted>");
}

#[test]
fn urls_in_error_texts_are_redacted() {
    assert_eq!(
        redact_urls_in("error sending request for url (https://h.example/p?sig=abc)"),
        "error sending request for url (https://h.example/p?sig=<redacted>)"
    );
    // Only white space ends a URL outside brackets.
    assert_eq!(
        redact_urls_in("see http://a.example/?k=v, and https://b.example/#x."),
        "see http://a.example/?k=<redacted> and https://b.example/#<redacted>"
    );
    assert_eq!(
        redact_urls_in("(https://a.example/p) and (see https://b.example/p)"),
        "(https://a.example/p) and (see https://b.example/p)"
    );
}

#[test]
fn texts_without_urls_are_shown() {
    assert_eq!(redact_urls_in("no such host"), "no such host");
    assert_eq!(redact_urls_in("httpx://h?a=b"), "httpx://h?a=b");
    assert_eq!(redact_urls_in(""), "");
}

#[test]
fn broken_urls_in_error_texts_are_masked() {
    assert_eq!(redact_urls_in("bad (http://)"), "bad (<redacted>)");
}

#[test]
fn urls_that_differ_in_secrets_look_alike() {
    let a = "https://u:p@h.example/p?sig=abc&comp=list&t#one";
    let b = "https://v@h.example/p?sig=xyz%20&comp=list&u#two";
    assert_eq!(redact_url(a), redact_url(b));
}

#[test]
fn components_are_shown_or_masked() {
    let url = |query: Option<&str>, fragment: Option<&str>| ParsedUrl {
        href: String::new(),
        scheme: "https".to_string(),
        has_authority: true,
        username: String::new(),
        password: None,
        host: Some("h.example".to_string()),
        domain: Some("h.example".to_string()),
        port: Some(8443),
        path: "/p".to_string(),
        query: query.map(str::to_string),
        fragment: fragment.map(str::to_string),
    };
    assert_eq!(redact_parse(&Ok(url(None, None))), "https://h.example:8443/p");
    assert_eq!(
        redact_parse(&Ok(url(Some("comp=a&x=b=c"), Some("")))),
        "https://h.example:8443/p?comp=a&x=<redacted>#<redacted>"
    );
    assert_eq!(redact_parse(&Err("empty host".to_string())), "<redacted>");
}

#[test]
fn secrets_that_end_in_punctuation_are_masked() {
    for end in [".", ")", ",", ";", ":", "]", ";;", ").", "'"] {
        for secret in ["", "a"] {
            let query = format!("https://h.example/p?code={secret}{end}");
            let fragment = format!("https://h.example/p#{secret}{end}");
            for (url, shown) in [
                (query, "https://h.example/p?code=<redacted>"),
                (fragment, "https://h.example/p#<redacted>"),
            ] {
                assert_eq!(redact_url(&url), shown);
                assert_eq!(
                    redact_urls_in(&format!("error sending request for url ({url})")),
                    format!("error sending request for url ({shown})")
                );
                assert_eq!(redact_urls_in(&format!("{url} failed")), format!("{shown} failed"));
                assert_eq!(
                    redact_report(&format!("for {url}): cause"), &url, shown),
                    format!("for {shown}): cause")
                );
            }
        }
    }
}

#[test]
fn reports_replace_every_quote_of_the_requested_url() {
    let url = "https://h.example/?sig=a.";
    assert_eq!(
        redact_report(
            "<https://h.example/?sig=a.>, via https://proxy.example/?k=v and https://h.example/?sig=a.",
            url,
            "https://h.example/?sig=<redacted>"
        ),
        "<https://h.example/?sig=<redacted>>, via https://proxy.example/?k=<redacted> and https://h.example/?sig=<redacted>"
    );
    assert_eq!(redact_report("no such host", url, "x"), "no such host");
    assert_eq!(redact_report("", url, "x"), "");
    assert_eq!(redact_report("a https://b.example/?c=d", "", "x"), "a https://b.example/?c=<redacted>");
}
