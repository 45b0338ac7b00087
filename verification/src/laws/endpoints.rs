//! Laws of the endpoint allow-list and of URL schemes.
use vstd::prelude::*;

#[allow(unused_imports)]
use crate::ssrf::{
    allowed_domain, allowlist_answer, azure_domain, azure_suffixes, below, malformed_message,
    request_url, scheme_answer, target_answer, HttpPolicy,
};
#[allow(unused_imports)]
use crate::url::{parsed_url, UrlView};

verus! {

/// The test build approves what the production build approves and one name
/// more.
pub proof fn law_test_build_adds_one_name(domain: Seq<char>)
    ensures
        allowed_domain(HttpPolicy::TestDomains, domain) <==> allowed_domain(
            HttpPolicy::AzureDomains,
            domain,
        ) || domain == "httpbingo.org"@,
{
}

/// A restricted build refuses every IP address, and every URL without a host.
pub proof fn law_addresses_refused(policy: HttpPolicy, url: UrlView)
    requires
        policy != HttpPolicy::AllowAll,
        url.domain is None,
    ensures
        allowlist_answer(policy, url) is Err,
{
}

/// A restricted build accepts `https` and nothing else.
pub proof fn law_https_only(policy: HttpPolicy, scheme: Seq<char>)
    requires
        policy != HttpPolicy::AllowAll,
    ensures
        scheme_answer(policy, scheme) is Ok <==> scheme == "https"@,
{
}

/// No build accepts a scheme other than `http` and `https`.
pub proof fn law_no_other_scheme(policy: HttpPolicy, scheme: Seq<char>)
    requires
        scheme_answer(policy, scheme) is Ok,
    ensures
        scheme == "http"@ || scheme == "https"@,
{
}

/// Any subdomain of an Azure service is approved by the restricted builds that
/// have outbound HTTP.
pub proof fn law_subdomains_approved(policy: HttpPolicy, label: Seq<char>, i: int)
    requires
        policy == HttpPolicy::AzureDomains || policy == HttpPolicy::TestDomains,
        label.len() > 0,
        0 <= i < azure_suffixes().len(),
    ensures
        allowed_domain(policy, label + azure_suffixes()[i]),
{
    let suffix = azure_suffixes()[i];
    let domain = label + suffix;
    assert(domain.subrange(label.len() as int, domain.len() as int) =~= suffix);
    assert(below(domain, suffix));
}

/// What tells the suffixes apart: each starts with a dot, none ends with
/// another.
proof fn lemma_suffixes()
    ensures
        forall|j: int|
            0 <= j < azure_suffixes().len() ==> {
                let s = #[trigger] azure_suffixes()[j];
                &&& s.len() >= 12
                &&& s[0] == '.'
                &&& s.last() == 't' || (s.last() == 'm' && s[s.len() - 5] == 'e')
            },
        forall|i: int, j: int|
            0 <= i < azure_suffixes().len() && 0 <= j < azure_suffixes().len() ==> {
                let s = #[trigger] azure_suffixes()[i];
                let t = #[trigger] azure_suffixes()[j];
                t.len() < s.len() ==> {
                    ||| s[s.len() - t.len()] != '.'
                    ||| s[s.len() - 6] != t[t.len() - 6]
                    ||| t.len() >= 13 && s[s.len() - 13] != t[t.len() - 13]
                }
            },
{
    reveal_strlit(".blob.core.windows.net");
    reveal_strlit(".blob.storage.azure.net");
    reveal_strlit(".queue.core.windows.net");
    reveal_strlit(".table.core.windows.net");
    reveal_strlit(".file.core.windows.net");
    reveal_strlit(".azurewebsites.net");
    reveal_strlit(".azure-api.net");
    reveal_strlit(".documents.azure.com");
    reveal_strlit(".servicebus.windows.net");
    reveal_strlit(".openai.azure.com");
    reveal_strlit(".cognitiveservices.azure.com");
    reveal_strlit(".vault.azure.net");
    reveal_strlit(".redis.cache.windows.net");
    reveal_strlit(".database.windows.net");
    reveal_strlit(".kusto.windows.net");
    reveal_strlit(".azurefd.net");
    reveal_strlit(".azureedge.net");
    reveal_strlit(".azure-devices.net");
    reveal_strlit(".trafficmanager.net");
    reveal_strlit(".cloudapp.azure.com");
}

/// The names of the Azure services themselves are not approved, only names
/// below them.
pub proof fn law_apex_refused(policy: HttpPolicy, i: int)
    requires
        policy == HttpPolicy::AzureDomains || policy == HttpPolicy::TestDomains,
        0 <= i < azure_suffixes().len(),
    ensures
        !allowed_domain(policy, azure_suffixes()[i].skip(1)),
{
    lemma_suffixes();
    let suffix = azure_suffixes()[i];
    let apex = suffix.skip(1);
    let n = apex.len() as int;
    assert forall|j: int| 0 <= j < azure_suffixes().len() implies !below(
        apex,
        #[trigger] azure_suffixes()[j],
    ) by {
        let t = azure_suffixes()[j];
        if below(apex, t) {
            let tail = apex.subrange(n - t.len(), n);
            assert(tail[0] == suffix[suffix.len() - t.len()]);
            assert(tail[t.len() - 6] == suffix[suffix.len() - 6]);
            if t.len() >= 13 {
                assert(tail[t.len() - 13] == suffix[suffix.len() - 13]);
            }
            assert(false);
        }
    }
    assert(apex.last() == suffix.last());
    assert(apex[n - 5] == suffix[suffix.len() - 5]);
    reveal_strlit("api.github.com");
    reveal_strlit("httpbingo.org");
}

/// A name matched exactly is matched alone: nothing longer that ends with it is
/// approved, be it a subdomain or a lookalike.
pub proof fn law_exact_names_exact(policy: HttpPolicy, prefix: Seq<char>, exact: Seq<char>)
    requires
        policy == HttpPolicy::AzureDomains || policy == HttpPolicy::TestDomains,
        prefix.len() > 0,
        exact == "api.github.com"@ || exact == "httpbingo.org"@,
    ensures
        !allowed_domain(policy, prefix + exact),
{
    lemma_suffixes();
    reveal_strlit("api.github.com");
    reveal_strlit("httpbingo.org");
    let domain = prefix + exact;
    let n = domain.len() as int;
    assert(domain.last() == exact.last());
    assert(domain[n - 5] == exact[exact.len() - 5]);
    assert forall|j: int| 0 <= j < azure_suffixes().len() implies !below(
        domain,
        #[trigger] azure_suffixes()[j],
    ) by {
        let t = azure_suffixes()[j];
        if below(domain, t) {
            let tail = domain.subrange(n - t.len(), n);
            assert(tail[t.len() - 1] == domain[n - 1]);
            assert(tail[t.len() - 5] == domain[n - 5]);
            assert(false);
        }
    }
    if domain == "api.github.com"@ {
        assert(exact == "httpbingo.org"@);
        assert(domain.last() == 'm');
    }
}

/// A name ends with a suffix and has something before it.
pub open spec fn ends_below(name: Seq<char>, suffix: Seq<char>) -> bool {
    name.len() > suffix.len() && name.skip(name.len() - suffix.len()) == suffix
}

/// A name below one of the approved Azure services.
pub open spec fn azure_name(name: Seq<char>) -> bool {
    ||| ends_below(name, ".blob.core.windows.net"@)
    ||| ends_below(name, ".blob.storage.azure.net"@)
    ||| ends_below(name, ".queue.core.windows.net"@)
    ||| ends_below(name, ".table.core.windows.net"@)
    ||| ends_below(name, ".file.core.windows.net"@)
    ||| ends_below(name, ".azurewebsites.net"@)
    ||| ends_below(name, ".azure-api.net"@)
    ||| ends_below(name, ".documents.azure.com"@)
    ||| ends_below(name, ".servicebus.windows.net"@)
    ||| ends_below(name, ".openai.azure.com"@)
    ||| ends_below(name, ".cognitiveservices.azure.com"@)
    ||| ends_below(name, ".vault.azure.net"@)
    ||| ends_below(name, ".redis.cache.windows.net"@)
    ||| ends_below(name, ".database.windows.net"@)
    ||| ends_below(name, ".kusto.windows.net"@)
    ||| ends_below(name, ".azurefd.net"@)
    ||| ends_below(name, ".azureedge.net"@)
    ||| ends_below(name, ".azure-devices.net"@)
    ||| ends_below(name, ".trafficmanager.net"@)
    ||| ends_below(name, ".cloudapp.azure.com"@)
}

/// The names that a build approves.
pub open spec fn approved_name(policy: HttpPolicy, name: Seq<char>) -> bool {
    match policy {
        HttpPolicy::Disabled => false,
        HttpPolicy::AzureDomains => azure_name(name) || name == "api.github.com"@,
        HttpPolicy::TestDomains => azure_name(name) || name == "api.github.com"@ || name
            == "httpbingo.org"@,
        HttpPolicy::AllowAll => true,
    }
}

proof fn lemma_below(name: Seq<char>, suffix: Seq<char>)
    ensures
        below(name, suffix) == ends_below(name, suffix),
{
    if name.len() > suffix.len() {
        let at = name.len() - suffix.len();
        assert(name.subrange(at, at + suffix.len()) =~= name.skip(at));
    }
}

/// A name is approved exactly where it stands below one of the twenty services
/// or is one of the names matched exactly.
pub proof fn law_approved_names(policy: HttpPolicy, name: Seq<char>)
    ensures
        allowed_domain(policy, name) == approved_name(policy, name),
{
    let table = azure_suffixes();
    assert(table.len() == 20);
    assert(table[0] == ".blob.core.windows.net"@);
    lemma_below(name, ".blob.core.windows.net"@);
    assert(table[1] == ".blob.storage.azure.net"@);
    lemma_below(name, ".blob.storage.azure.net"@);
    assert(table[2] == ".queue.core.windows.net"@);
    lemma_below(name, ".queue.core.windows.net"@);
    assert(table[3] == ".table.core.windows.net"@);
    lemma_below(name, ".table.core.windows.net"@);
    assert(table[4] == ".file.core.windows.net"@);
    lemma_below(name, ".file.core.windows.net"@);
    assert(table[5] == ".azurewebsites.net"@);
    lemma_below(name, ".azurewebsites.net"@);
    assert(table[6] == ".azure-api.net"@);
    lemma_below(name, ".azure-api.net"@);
    assert(table[7] == ".documents.azure.com"@);
    lemma_below(name, ".documents.azure.com"@);
    assert(table[8] == ".servicebus.windows.net"@);
    lemma_below(name, ".servicebus.windows.net"@);
    assert(table[9] == ".openai.azure.com"@);
    lemma_below(name, ".openai.azure.com"@);
    assert(table[10] == ".cognitiveservices.azure.com"@);
    lemma_below(name, ".cognitiveservices.azure.com"@);
    assert(table[11] == ".vault.azure.net"@);
    lemma_below(name, ".vault.azure.net"@);
    assert(table[12] == ".redis.cache.windows.net"@);
    lemma_below(name, ".redis.cache.windows.net"@);
    assert(table[13] == ".database.windows.net"@);
    lemma_below(name, ".database.windows.net"@);
    assert(table[14] == ".kusto.windows.net"@);
    lemma_below(name, ".kusto.windows.net"@);
    assert(table[15] == ".azurefd.net"@);
    lemma_below(name, ".azurefd.net"@);
    assert(table[16] == ".azureedge.net"@);
    lemma_below(name, ".azureedge.net"@);
    assert(table[17] == ".azure-devices.net"@);
    lemma_below(name, ".azure-devices.net"@);
    assert(table[18] == ".trafficmanager.net"@);
    lemma_below(name, ".trafficmanager.net"@);
    assert(table[19] == ".cloudapp.azure.com"@);
    lemma_below(name, ".cloudapp.azure.com"@);
    if azure_name(name) {
        assert(azure_domain(name));
    }
    if azure_domain(name) {
        let i = choose|i: int| 0 <= i < table.len() && below(name, #[trigger] azure_suffixes()[i]);
        assert(0 <= i < 20);
        assert(azure_name(name));
    }
}

/// A scheme is accepted where it is `https`, or `http` in the development
/// build; the answer to any other says what is accepted.
pub proof fn law_scheme_answered(policy: HttpPolicy, scheme: Seq<char>)
    ensures
        scheme_answer(policy, scheme) == (if scheme == "https"@ {
            Ok::<(), Seq<char>>(())
        } else if scheme == "http"@ {
            if policy == HttpPolicy::AllowAll {
                Ok(())
            } else {
                Err(
                    "Blocked: plaintext HTTP is not permitted in restricted builds. HTTPS is required."@,
                )
            }
        } else if policy == HttpPolicy::AllowAll {
            Err(
                "Blocked: unsupported URL scheme '"@ + scheme + "'. Only "@ + "http and https"@
                    + " is allowed."@,
            )
        } else {
            Err(
                "Blocked: unsupported URL scheme '"@ + scheme + "'. Only "@ + "https"@
                    + " is allowed."@,
            )
        }),
{
}

/// A host is accepted where the build approves it; the answer to any other says
/// why not.
pub proof fn law_host_answered(policy: HttpPolicy, url: UrlView)
    ensures
        allowlist_answer(policy, url) is Ok <==> policy == HttpPolicy::AllowAll || (url.domain
            is Some && approved_name(policy, url.domain->0)),
        policy == HttpPolicy::Disabled ==> allowlist_answer(policy, url) == Err::<(), Seq<char>>(
            "Blocked: outbound HTTP requests are disabled. Rebuild with the 'http-allow-azure-domains' Cargo feature to enable them."@,
        ),
        policy == HttpPolicy::AzureDomains || policy == HttpPolicy::TestDomains ==> match (
            url.domain,
            url.host,
        ) {
            (Some(name), _) => approved_name(policy, name) || allowlist_answer(policy, url)
                == Err::<(), Seq<char>>(
                "Blocked: '"@ + name
                    + "' is not in the allowed endpoint list. Only requests to approved Azure service domains are permitted."@,
            ),
            (None, Some(_)) => allowlist_answer(policy, url) == Err::<(), Seq<char>>(
                "Blocked: requests to bare IP addresses are not permitted. Use an approved Azure service hostname instead."@,
            ),
            (None, None) => allowlist_answer(policy, url) == Err::<(), Seq<char>>(
                "Blocked: '"@ + ""@
                    + "' is not in the allowed endpoint list. Only requests to approved Azure service domains are permitted."@,
            ),
        },
{
    if let Some(name) = url.domain {
        law_approved_names(policy, name);
    }
}

/// A request URL is what its text parses to; the answer to one that does not
/// parse gives the parser's words.
pub proof fn law_malformed_answered(text: Seq<char>)
    ensures
        match parsed_url(text) {
            Ok(url) => request_url(text) == Ok::<UrlView, Seq<char>>(url),
            Err(e) => request_url(text) == Err::<UrlView, Seq<char>>(
                "Blocked: malformed URL: "@ + e,
            ),
        },
        forall|e: Seq<char>| #[trigger] malformed_message(e) == "Blocked: malformed URL: "@ + e,
{
}

/// A target is accepted, as its canonical text, where scheme and host are; else
/// the first of the failing checks answers, under its own reason.
pub proof fn law_target_answered(policy: HttpPolicy, parsed: Result<UrlView, Seq<char>>)
    ensures
        match parsed {
            Err(e) => target_answer(policy, parsed) matches Err(refusal) && refusal.reason
                == "malformed"@ && refusal.message == e,
            Ok(url) => match scheme_answer(policy, url.scheme) {
                Err(e) => target_answer(policy, parsed) matches Err(refusal) && refusal.reason
                    == "scheme"@ && refusal.message == e,
                Ok(()) => match allowlist_answer(policy, url) {
                    Err(e) => target_answer(policy, parsed) matches Err(refusal)
                        && refusal.reason == "allowlist"@ && refusal.message == e,
                    Ok(()) => target_answer(policy, parsed) matches Ok(href) && href == url.href,
                },
            },
        },
{
}

} // verus!
