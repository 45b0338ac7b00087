//! Laws of whole exchanges, from the job to its result.
use vstd::prelude::*;

#[allow(unused_imports)]
use crate::activities::exchange::{
    approved, attempt_line, block_reason, blocked_line, completed, pending, ClearedView,
    ResponseView, SentView,
};
#[allow(unused_imports)]
use crate::activities::execute_http::client_for;
#[allow(unused_imports)]
use crate::activities::http_response::{envelope_fields, json_object_text};
#[allow(unused_imports)]
use crate::activities::privilege::{privilege_answer, privilege_query_for};
#[allow(unused_imports)]
use crate::activities::replay::{run, AnswersView};
#[allow(unused_imports)]
use crate::activities::request::{formed, sent_body, supported_method};
#[allow(unused_imports)]
use crate::laws::endpoints::{law_host_answered, law_scheme_answered};
#[allow(unused_imports)]
use crate::laws::records::{good_host, good_scheme};
#[allow(unused_imports)]
use crate::redact::redacted_url;
#[allow(unused_imports)]
use crate::ssrf::{allowed_domain, allowlist_answer, request_url, scheme_answer, HttpPolicy};
#[allow(unused_imports)]
use crate::text::stands_at;
#[allow(unused_imports)]
use crate::types::{Activity, HeaderEntryView, JobView, MultipartPartView, PayloadView};
#[allow(unused_imports)]
use crate::url::parsed_url;

verus! {

/// Only the catalog's word `allowed` is a permission: the privilege check fails
/// closed on everything else.
pub proof fn law_only_allowed_permits(
    activity: Activity,
    verdict: Result<Option<Seq<char>>, Seq<char>>,
    role: Seq<char>,
)
    ensures
        privilege_answer(activity, verdict, role) is Ok <==> verdict == Ok::<
            Option<Seq<char>>,
            Seq<char>,
        >(Some("allowed"@)),
{
}

/// No request goes out unless the role is permitted, the URL parses, its scheme
/// and its host are accepted and the activity has the method. What goes out is
/// the canonical text of the very parse that was judged.
pub proof fn law_nothing_sent_unchecked(policy: HttpPolicy, job: JobView, answers: AnswersView)
    requires
        run(policy, job, answers).sent is Some,
    ensures
        answers.verdict == Ok::<Option<Seq<char>>, Seq<char>>(Some("allowed"@)),
        request_url(job.url) matches Ok(url) && {
            &&& scheme_answer(policy, url.scheme) is Ok
            &&& allowlist_answer(policy, url) is Ok
            &&& run(policy, job, answers).sent->0.href == url.href
        },
        supported_method(job.activity(), job.method),
        run(policy, job, answers).sent->0.method == job.method,
{
}

/// Where all checks pass, the client is set up and the parts are in order, the
/// request does go out.
pub proof fn law_checked_is_sent(policy: HttpPolicy, job: JobView, answers: AnswersView)
    requires
        answers.verdict == Ok::<Option<Seq<char>>, Seq<char>>(Some("allowed"@)),
        request_url(job.url) matches Ok(url) && scheme_answer(policy, url.scheme) is Ok
            && allowlist_answer(policy, url) is Ok,
        answers.client is Ok,
        supported_method(job.activity(), job.method),
        sent_body(job.payload) is Ok,
    ensures
        run(policy, job, answers).sent is Some,
{
}

/// A restricted build requests `https` URLs only, of approved hosts that are
/// names, never of IP addresses.
pub proof fn law_restricted_targets(policy: HttpPolicy, job: JobView, answers: AnswersView)
    requires
        policy != HttpPolicy::AllowAll,
        run(policy, job, answers).sent is Some,
    ensures
        request_url(job.url) matches Ok(url) && {
            &&& url.scheme == "https"@
            &&& url.domain matches Some(domain) && allowed_domain(policy, domain)
        },
{
}

/// A build without outbound HTTP sends nothing, whatever the world answers, and
/// fails every job.
pub proof fn law_disabled_sends_nothing(job: JobView, answers: AnswersView)
    ensures
        run(HttpPolicy::Disabled, job, answers).sent is None,
        run(HttpPolicy::Disabled, job, answers).result is Err,
{
}

/// The privilege check comes first: a role that is not permitted gets the same
/// answer whatever URL it asked for.
pub proof fn law_privilege_first(
    policy: HttpPolicy,
    other_policy: HttpPolicy,
    job: JobView,
    other: JobView,
    answers: AnswersView,
)
    requires
        answers.verdict != Ok::<Option<Seq<char>>, Seq<char>>(Some("allowed"@)),
        job.activity() == other.activity(),
        job.submitted_by == other.submitted_by,
    ensures
        run(policy, job, answers).result is Err,
        run(policy, job, answers).result == run(other_policy, other, answers).result,
{
}

/// Every job is logged first of all, allowed or blocked, with the role and the
/// redacted URL, and a blocked one with the reason.
pub proof fn law_every_job_logged(policy: HttpPolicy, job: JobView, answers: AnswersView)
    ensures
        run(policy, job, answers).log.len() >= 1,
        run(policy, job, answers).log[0] == (match block_reason(
            pending(policy, job),
            answers.verdict,
        ) {
            Some(reason) => blocked_line(
                job.activity(),
                reason,
                redacted_url(job.url),
                job.submitted_by,
            ),
            None => attempt_line(job, redacted_url(job.url)),
        }),
        block_reason(pending(policy, job), answers.verdict) is Some ==> run(
            policy,
            job,
            answers,
        ).sent is None && run(policy, job, answers).log.len() == 1,
{
}

/// Request headers and bodies are never logged, and no error shows them: two
/// HTTP jobs that differ in nothing else leave the same log and the same
/// result.
pub proof fn law_headers_and_body_unseen(
    policy: HttpPolicy,
    job: JobView,
    headers: Option<Seq<HeaderEntryView>>,
    body: Option<Seq<char>>,
    answers: AnswersView,
)
    requires
        job.activity() == Activity::Http,
    ensures
        ({
            let other = JobView { headers, payload: PayloadView::Body(body), ..job };
            &&& run(policy, job, answers).log == run(policy, other, answers).log
            &&& run(policy, job, answers).result == run(policy, other, answers).result
        }),
{
    let other = JobView { headers, payload: PayloadView::Body(body), ..job };
    assert(attempt_line(job, redacted_url(job.url)) == attempt_line(
        other,
        redacted_url(other.url),
    ));
}

/// The headers of a multipart job are never logged, and no error shows them.
pub proof fn law_form_headers_unseen(
    policy: HttpPolicy,
    job: JobView,
    headers: Option<Seq<HeaderEntryView>>,
    answers: AnswersView,
)
    requires
        job.activity() == Activity::Multipart,
    ensures
        ({
            let other = JobView { headers, ..job };
            &&& run(policy, job, answers).log == run(policy, other, answers).log
            &&& run(policy, job, answers).result == run(policy, other, answers).result
        }),
{
}

/// The parts of a form are never logged, only their number; and once they make
/// a form, the result does not show them either.
pub proof fn law_form_parts_unseen(
    policy: HttpPolicy,
    job: JobView,
    parts: Seq<MultipartPartView>,
    answers: AnswersView,
)
    requires
        job.payload matches PayloadView::Parts(own) && own.len() == parts.len() && formed(
            own,
        ) is Ok == formed(parts) is Ok,
    ensures
        ({
            let other = JobView { payload: PayloadView::Parts(parts), ..job };
            &&& run(policy, job, answers).log == run(policy, other, answers).log
            &&& formed(parts) is Ok ==> run(policy, job, answers).result == run(
                policy,
                other,
                answers,
            ).result
        }),
{
}

/// Once a body could be read, the activity fails exactly on the server's
/// failures; every other response is a result, the caller's errors among them.
pub proof fn law_server_failures_only(sent: SentView, response: ResponseView)
    requires
        response.body is Ok,
    ensures
        completed(sent, response) is Err <==> 500 <= response.status <= 599,
        completed(sent, response) matches Ok(text) ==> text == json_object_text(
            envelope_fields(
                response.status,
                response.body->Ok_0,
                response.headers,
                200 <= response.status <= 299,
                response.duration_ms,
            ),
        ),
{
}

/// Both activities return the same envelope for a response, whatever they
/// requested.
pub proof fn law_same_envelope(one: SentView, other: SentView, response: ResponseView)
    requires
        completed(one, response) is Ok,
    ensures
        completed(other, response) == completed(one, response),
{
}

/// A form is sent only with methods that a plain request has too.
pub proof fn law_form_methods(method: Seq<char>)
    requires
        supported_method(Activity::Multipart, method),
    ensures
        supported_method(Activity::Http, method),
{
}

/// The client never follows redirects. In a restricted build it screens the
/// addresses that names resolve to and uses no proxy.
pub proof fn law_client_guards(policy: HttpPolicy, timeout_seconds: u64)
    ensures
        !client_for(policy, timeout_seconds).follow_redirects,
        client_for(policy, timeout_seconds).timeout_seconds == timeout_seconds,
        policy != HttpPolicy::AllowAll ==> client_for(policy, timeout_seconds).screen_addresses
            && !client_for(policy, timeout_seconds).use_system_proxy,
{
}

/// The client signs its requests with the name and the version, keeps to the
/// time limit of the job, and differs between builds only in what guards it.
pub proof fn law_client_set_up(policy: HttpPolicy, timeout_seconds: u64)
    ensures
        ({
            let client = client_for(policy, timeout_seconds);
            &&& client.timeout_seconds == timeout_seconds
            &&& client.user_agent == "pg_durable/"@ + "0.2.8"@
            &&& !client.follow_redirects
            &&& client.use_system_proxy <==> policy == HttpPolicy::AllowAll
            &&& client.screen_addresses <==> policy != HttpPolicy::AllowAll
        }),
{
}

/// Each activity asks the catalog about its own function, by its current
/// signature first and then by the one before it.
pub proof fn law_privilege_query(activity: Activity)
    ensures
        privilege_query_for(activity) == (if activity == Activity::Http {
            "SELECT CASE WHEN p.oid IS NULL THEN 'absent' WHEN pg_catalog.has_function_privilege($1::regrole, p.oid, 'EXECUTE') THEN 'allowed' ELSE 'denied' END FROM (SELECT COALESCE( pg_catalog.to_regprocedure('df.http(text,text,text,jsonb,integer,jsonb)'), pg_catalog.to_regprocedure('df.http(text,text,text,jsonb,integer)') ) AS oid) p"@
        } else {
            "SELECT CASE WHEN p.oid IS NULL THEN 'absent' WHEN pg_catalog.has_function_privilege($1::regrole, p.oid, 'EXECUTE') THEN 'allowed' ELSE 'denied' END FROM (SELECT COALESCE( pg_catalog.to_regprocedure('df.http_multipart(text,text,jsonb,jsonb,integer,jsonb)'), pg_catalog.to_regprocedure('df.http_multipart(text,text,jsonb,jsonb,integer)') ) AS oid) p"@
        }),
{
}

/// A job that is approved has a URL that parses to what is to be sent, with a
/// scheme and a host that the build accepts; only its redacted form is at hand;
/// and outside the development build what is to be sent is an `https` URL.
pub proof fn law_approved(cleared: ClearedView)
    requires
        approved(cleared),
    ensures
        parsed_url(cleared.job.url) matches Ok(url) && {
            &&& url.href == cleared.href
            &&& good_scheme(cleared.policy, url)
            &&& good_host(cleared.policy, url)
        },
        cleared.safe_url == redacted_url(cleared.job.url),
        cleared.policy != HttpPolicy::AllowAll ==> stands_at(cleared.href, "https:"@, 0),
{
    let url = parsed_url(cleared.job.url)->Ok_0;
    law_scheme_answered(cleared.policy, url.scheme);
    law_host_answered(cleared.policy, url);
}

} // verus!
