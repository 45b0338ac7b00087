//! The rules on where an outbound request may go: scheme, endpoint allow-list
//! and address blocklist.
use vstd::prelude::*;
use vstd::string::*;

use crate::text::{ends_after_more, same_text};
#[allow(unused_imports)]
use crate::text::{outcome_view, stands_at};
use crate::url::{parse_url, ParsedUrl};
#[allow(unused_imports)]
use crate::url::{parse_view, parsed_url, UrlView};

verus! {

/// What outbound HTTP a build allows. Fixed when the extension is built; no
/// setting and no role changes it.
#[derive(Clone, Copy, PartialEq, Eq, Structural, Debug)]
pub enum HttpPolicy {
    /// Nothing.
    Disabled,
    /// HTTPS to subdomains of the Azure services and to `api.github.com`.
    AzureDomains,
    /// The same and `httpbingo.org`.
    TestDomains,
    /// HTTP and HTTPS to anything; development only.
    AllowAll,
}

impl HttpPolicy {
    /// All builds but the development build are restricted.
    pub open spec fn restricted(self) -> bool {
        self != HttpPolicy::AllowAll
    }
}

/// Subdomains of these are approved; the names themselves are not.
pub open spec fn azure_suffixes() -> Seq<Seq<char>> {
    seq![
        ".blob.core.windows.net"@,
        ".blob.storage.azure.net"@,
        ".queue.core.windows.net"@,
        ".table.core.windows.net"@,
        ".file.core.windows.net"@,
        ".azurewebsites.net"@,
        ".azure-api.net"@,
        ".documents.azure.com"@,
        ".servicebus.windows.net"@,
        ".openai.azure.com"@,
        ".cognitiveservices.azure.com"@,
        ".vault.azure.net"@,
        ".redis.cache.windows.net"@,
        ".database.windows.net"@,
        ".kusto.windows.net"@,
        ".azurefd.net"@,
        ".azureedge.net"@,
        ".azure-devices.net"@,
        ".trafficmanager.net"@,
        ".cloudapp.azure.com"@,
    ]
}

/// `domain` is a name below `suffix`: it ends with it and has a label more.
pub open spec fn below(domain: Seq<char>, suffix: Seq<char>) -> bool {
    domain.len() > suffix.len() && stands_at(domain, suffix, domain.len() - suffix.len())
}

/// `domain` is a subdomain of an approved Azure service.
pub open spec fn azure_domain(domain: Seq<char>) -> bool {
    exists|i: int|
        0 <= i < azure_suffixes().len() && below(domain, #[trigger] azure_suffixes()[i])
}

/// The host names that a build approves.
pub open spec fn allowed_domain(policy: HttpPolicy, domain: Seq<char>) -> bool {
    match policy {
        HttpPolicy::Disabled => false,
        HttpPolicy::AzureDomains => azure_domain(domain) || domain == "api.github.com"@,
        HttpPolicy::TestDomains => azure_domain(domain) || domain == "api.github.com"@ || domain
            == "httpbingo.org"@,
        HttpPolicy::AllowAll => true,
    }
}

/// The answer to a URL scheme: restricted builds accept `https` alone.
pub open spec fn scheme_answer(policy: HttpPolicy, scheme: Seq<char>) -> Result<(), Seq<char>> {
    if scheme == "https"@ || (!policy.restricted() && scheme == "http"@) {
        Ok(())
    } else if scheme == "http"@ {
        Err("Blocked: plaintext HTTP is not permitted in restricted builds. HTTPS is required."@)
    } else {
        Err(
            "Blocked: unsupported URL scheme '"@ + scheme + "'. Only "@ + (if policy.restricted() {
                "https"@
            } else {
                "http and https"@
            }) + " is allowed."@,
        )
    }
}

/// The answer to a host: the development build accepts all, a build without
/// outbound HTTP none, any other the approved names and no IP address.
pub open spec fn allowlist_answer(policy: HttpPolicy, url: UrlView) -> Result<(), Seq<char>> {
    match policy {
        HttpPolicy::AllowAll => Ok(()),
        HttpPolicy::Disabled => Err(
            "Blocked: outbound HTTP requests are disabled. Rebuild with the 'http-allow-azure-domains' Cargo feature to enable them."@,
        ),
        _ => match (url.domain, url.host) {
            (Some(domain), _) => if allowed_domain(policy, domain) {
                Ok(())
            } else {
                Err(not_allowed(domain))
            },
            (None, Some(_)) => Err(
                "Blocked: requests to bare IP addresses are not permitted. Use an approved Azure service hostname instead."@,
            ),
            (None, None) => Err(not_allowed(""@)),
        },
    }
}

/// The answer to a host outside the allow-list.
pub open spec fn not_allowed(host: Seq<char>) -> Seq<char> {
    "Blocked: '"@ + host
        + "' is not in the allowed endpoint list. Only requests to approved Azure service domains are permitted."@
}

/// The answer to a URL that does not parse.
pub open spec fn malformed_message(why: Seq<char>) -> Seq<char> {
    "Blocked: malformed URL: "@ + why
}

/// What a request URL parses to, or the answer to a malformed one.
pub open spec fn request_url(text: Seq<char>) -> Result<UrlView, Seq<char>> {
    match parsed_url(text) {
        Ok(url) => Ok(url),
        Err(e) => Err(malformed_message(e)),
    }
}

/// Takes the outcome of a parse as that of a request URL.
pub fn accept_parse(parsed: Result<ParsedUrl, String>) -> (accepted: Result<ParsedUrl, String>)
    ensures
        match parsed {
            Ok(url) => accepted == Ok::<ParsedUrl, String>(url),
            Err(e) => accepted matches Err(answer) && answer@ == malformed_message(e@),
        },
{
    match parsed {
        Ok(url) => Ok(url),
        Err(e) => {
            let mut answer = "Blocked: malformed URL: ".to_owned();
            answer.append(e.as_str());
            Err(answer)
        },
    }
}

/// Parses the URL of a request. The parse that is judged is the one whose
/// canonical text is sent.
pub fn parse_request_url(text: &str) -> (parsed: Result<ParsedUrl, String>)
    ensures
        parse_view(parsed) == request_url(text@),
        parsed matches Ok(url) ==> stands_at(url.href@, url.scheme@.push(':'), 0),
{
    accept_parse(parse_url(text))
}

/// Checks the scheme of a request URL.
pub fn validate_scheme(policy: HttpPolicy, url: &ParsedUrl) -> (answer: Result<(), String>)
    ensures
        outcome_view(answer) == scheme_answer(policy, url@.scheme),
{
    let scheme = url.scheme.as_str();
    let restricted = policy != HttpPolicy::AllowAll;
    if same_text(scheme, "https") || (!restricted && same_text(scheme, "http")) {
        return Ok(());
    }
    if same_text(scheme, "http") {
        return Err(
            "Blocked: plaintext HTTP is not permitted in restricted builds. HTTPS is required.".to_owned(),
        );
    }
    let mut message = "Blocked: unsupported URL scheme '".to_owned();
    message.append(scheme);
    message.append("'. Only ");
    message.append(if restricted {
        "https"
    } else {
        "http and https"
    });
    message.append(" is allowed.");
    Err(message)
}

fn suffixes() -> (table: Vec<&'static str>)
    ensures
        table@.len() == azure_suffixes().len(),
        forall|i: int| 0 <= i < table@.len() ==> #[trigger] table@[i]@ == azure_suffixes()[i],
{
    vec![
        ".blob.core.windows.net",
        ".blob.storage.azure.net",
        ".queue.core.windows.net",
        ".table.core.windows.net",
        ".file.core.windows.net",
        ".azurewebsites.net",
        ".azure-api.net",
        ".documents.azure.com",
        ".servicebus.windows.net",
        ".openai.azure.com",
        ".cognitiveservices.azure.com",
        ".vault.azure.net",
        ".redis.cache.windows.net",
        ".database.windows.net",
        ".kusto.windows.net",
        ".azurefd.net",
        ".azureedge.net",
        ".azure-devices.net",
        ".trafficmanager.net",
        ".cloudapp.azure.com",
    ]
}

fn is_azure_domain(domain: &str) -> (found: bool)
    ensures
        found == azure_domain(domain@),
{
    let table = suffixes();
    let mut i: usize = 0;
    while i < table.len()
        invariant
            0 <= i <= table@.len(),
            table@.len() == azure_suffixes().len(),
            forall|j: int| 0 <= j < table@.len() ==> #[trigger] table@[j]@ == azure_suffixes()[j],
            forall|j: int| 0 <= j < i ==> !below(domain@, #[trigger] azure_suffixes()[j]),
        decreases table@.len() - i,
    {
        let suffix: &str = table[i];
        assert(suffix@ == azure_suffixes()[i as int]);
        if ends_after_more(domain, suffix) {
            return true;
        }
        i = i + 1;
    }
    false
}

/// Whether a build approves a host name.
pub fn is_allowed_domain(policy: HttpPolicy, domain: &str) -> (allowed: bool)
    ensures
        allowed == allowed_domain(policy, domain@),
{
    match policy {
        HttpPolicy::Disabled => false,
        HttpPolicy::AzureDomains => is_azure_domain(domain) || same_text(domain, "api.github.com"),
        HttpPolicy::TestDomains => is_azure_domain(domain) || same_text(domain, "api.github.com")
            || same_text(domain, "httpbingo.org"),
        HttpPolicy::AllowAll => true,
    }
}

fn refuse_host(host: &str) -> (message: String)
    ensures
        message@ == not_allowed(host@),
{
    let mut message = "Blocked: '".to_owned();
    message.append(host);
    message.append(
        "' is not in the allowed endpoint list. Only requests to approved Azure service domains are permitted.",
    );
    message
}

/// Checks the host of a request URL against the allow-list.
pub fn validate_allowlist(policy: HttpPolicy, url: &ParsedUrl) -> (answer: Result<(), String>)
    ensures
        outcome_view(answer) == allowlist_answer(policy, url@),
{
    match policy {
        HttpPolicy::AllowAll => return Ok(()),
        HttpPolicy::Disabled => return Err(
            "Blocked: outbound HTTP requests are disabled. Rebuild with the 'http-allow-azure-domains' Cargo feature to enable them.".to_owned(),
        ),
        _ => {},
    }
    match &url.domain {
        Some(domain) => if is_allowed_domain(policy, domain.as_str()) {
            Ok(())
        } else {
            Err(refuse_host(domain.as_str()))
        },
        None => match &url.host {
            Some(_) => Err(
                "Blocked: requests to bare IP addresses are not permitted. Use an approved Azure service hostname instead.".to_owned(),
            ),
            None => Err(refuse_host("")),
        },
    }
}

/// Why a target is refused.
pub struct Refusal {
    /// The reason in the log line.
    pub reason: &'static str,
    /// The answer.
    pub message: String,
}

/// The mathematical value of a `Refusal`.
pub struct RefusalView {
    pub reason: Seq<char>,
    pub message: Seq<char>,
}

impl View for Refusal {
    type V = RefusalView;

    open spec fn view(&self) -> RefusalView {
        RefusalView { reason: self.reason@, message: self.message@ }
    }
}

/// The answer to the target of a request: the canonical text to be sent, or the
/// refusal of the first check that fails, in the order URL, scheme, allow-list.
pub open spec fn target_answer(
    policy: HttpPolicy,
    parsed: Result<UrlView, Seq<char>>,
) -> Result<Seq<char>, RefusalView> {
    match parsed {
        Err(message) => Err(RefusalView { reason: "malformed"@, message }),
        Ok(url) => match scheme_answer(policy, url.scheme) {
            Err(message) => Err(RefusalView { reason: "scheme"@, message }),
            Ok(()) => match allowlist_answer(policy, url) {
                Err(message) => Err(RefusalView { reason: "allowlist"@, message }),
                Ok(()) => Ok(url.href),
            },
        },
    }
}

/// The answer to a target as a mathematical value.
pub open spec fn target_view(answer: Result<String, Refusal>) -> Result<Seq<char>, RefusalView> {
    match answer {
        Ok(href) => Ok(href@),
        Err(refusal) => Err(refusal@),
    }
}

/// Judges the target of a request, given what its URL parsed to.
pub fn check_target(policy: HttpPolicy, parsed: Result<ParsedUrl, String>) -> (answer: Result<
    String,
    Refusal,
>)
    ensures
        target_view(answer) == target_answer(policy, parse_view(parsed)),
{
    let url = match parsed {
        Ok(url) => url,
        Err(message) => return Err(Refusal { reason: "malformed", message }),
    };
    if let Err(message) = validate_scheme(policy, &url) {
        return Err(Refusal { reason: "scheme", message });
    }
    if let Err(message) = validate_allowlist(policy, &url) {
        return Err(Refusal { reason: "allowlist", message });
    }
    Ok(url.href)
}

} // verus!
