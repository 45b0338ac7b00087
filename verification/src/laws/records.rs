//! Laws of records: what an exchange leaves behind, in each of the courses that
//! it can take, from what the job asks for and what the world answers.
use vstd::prelude::*;

#[allow(unused_imports)]
use crate::activities::exchange::{
    authorized, pending, sent, shown_text, ResponseView, SendFailureView,
};
#[allow(unused_imports)]
use crate::activities::execute_http::{client_for, http_job};
#[allow(unused_imports)]
use crate::activities::execute_multipart::multipart_job;
#[allow(unused_imports)]
use crate::activities::http_response::{
    envelope_fields, json_object_text, JsonFieldView, ResponseBodyView,
};
#[allow(unused_imports)]
use crate::activities::privilege::privilege_query_for;
#[allow(unused_imports)]
use crate::activities::replay::{run, run_http, run_multipart, AnswersView, RecordView, ReplyView};
#[allow(unused_imports)]
use crate::activities::request::sent_headers;
#[allow(unused_imports)]
use crate::address::restricted_range_notice;
#[allow(unused_imports)]
use crate::encoding::{standard_decoded, stripped, PartDataError};
#[allow(unused_imports)]
use crate::laws::addresses::{lemma_first_refusal, lemma_no_refusal};
#[allow(unused_imports)]
use crate::laws::bodies::{
    law_first_bad_part_blamed, law_form_of_parts, law_methods, law_string_headers_sent,
    part_blamed, part_in_order, part_of,
};
#[allow(unused_imports)]
use crate::laws::endpoints::{approved_name, law_host_answered, law_scheme_answered};
#[allow(unused_imports)]
use crate::redact::{redacted_report, redacted_url};
#[allow(unused_imports)]
use crate::ssrf::HttpPolicy;
#[allow(unused_imports)]
use crate::text::{decimal, occurs_in, same_ignoring_case};
#[allow(unused_imports)]
use crate::types::{
    Activity, HeaderEntryView, HttpConfigView, JobView, MultipartConfigView, MultipartPartView,
    PayloadView, RequestBodyView,
};
#[allow(unused_imports)]
use crate::url::{parsed_url, UrlView};

verus! {

/// The word that starts the lines on a job.
pub open spec fn word(payload: PayloadView) -> Seq<char> {
    match payload {
        PayloadView::Body(_) => "HTTP"@,
        PayloadView::Parts(_) => "HTTP_MULTIPART"@,
    }
}

/// The role may send the job: the catalog says `allowed`.
pub open spec fn permitted(answers: AnswersView) -> bool {
    answers.verdict == Ok::<Option<Seq<char>>, Seq<char>>(Some("allowed"@))
}

/// The scheme is one that the build accepts.
pub open spec fn good_scheme(policy: HttpPolicy, url: UrlView) -> bool {
    url.scheme == "https"@ || (policy == HttpPolicy::AllowAll && url.scheme == "http"@)
}

/// The host is one that the build accepts.
pub open spec fn good_host(policy: HttpPolicy, url: UrlView) -> bool {
    policy == HttpPolicy::AllowAll || (url.domain is Some && approved_name(
        policy,
        url.domain->0,
    ))
}

/// The job may be sent: the role is permitted, and the URL parses to one with a
/// good scheme and a good host.
pub open spec fn clear(policy: HttpPolicy, job: JobView, answers: AnswersView) -> bool {
    &&& permitted(answers)
    &&& parsed_url(job.url) matches Ok(url) && good_scheme(policy, url) && good_host(policy, url)
}

/// The activity that the payload calls for has the method.
pub open spec fn good_method(job: JobView) -> bool {
    ||| job.method == "POST"@
    ||| job.method == "PUT"@
    ||| job.method == "PATCH"@
    ||| job.payload is Body && (job.method == "GET"@ || job.method == "DELETE"@)
}

/// All parts of the job, if it has any, are in order.
pub open spec fn good_payload(payload: PayloadView) -> bool {
    payload matches PayloadView::Parts(parts) ==> forall|i: int|
        0 <= i < parts.len() ==> part_in_order(#[trigger] parts[i])
}

/// The line for a blocked job.
pub open spec fn line_blocked(job: JobView, reason: Seq<char>) -> Seq<char> {
    word(job.payload) + " BLOCKED ("@ + reason + ") url="@ + redacted_url(job.url)
        + " submitted_by="@ + job.submitted_by
}

/// The line for a job that is about to be sent.
pub open spec fn line_attempt(job: JobView) -> Seq<char> {
    word(job.payload) + " "@ + job.method + " "@ + redacted_url(job.url) + (match job.payload {
        PayloadView::Body(_) => Seq::<char>::empty(),
        PayloadView::Parts(parts) => " ("@ + decimal(parts.len()) + " parts)"@,
    }) + " submitted_by="@ + job.submitted_by
}

/// A job that was stopped: one line, nothing sent, and an error.
pub open spec fn stopped(record: RecordView, line: Seq<char>, error: Seq<char>) -> bool {
    &&& record.log == seq![line]
    &&& record.sent is None
    &&& record.result == Err::<Seq<char>, Seq<char>>(error)
}

/// A role that is not permitted stops the job, and the error says why: the query
/// failed, the guarded function is absent, or the role lacks the privilege.
pub proof fn law_role_refused(policy: HttpPolicy, job: JobView, answers: AnswersView)
    requires
        !permitted(answers),
    ensures
        stopped(
            run(policy, job, answers),
            line_blocked(job, "privilege"@),
            match answers.verdict {
                Err(e) => "HTTP privilege check failed for role '"@ + job.submitted_by + "': "@
                    + e,
                Ok(found) => if found == Some("absent"@) {
                    match job.payload {
                        PayloadView::Body(_) => "Blocked: "@ + "df.http()"@
                            + " is not installed in this database, so the "@ + "HTTP"@
                            + " privilege of role '"@ + job.submitted_by
                            + "' cannot be verified."@,
                        PayloadView::Parts(_) => "Blocked: "@ + "df.http_multipart()"@
                            + " is not installed in this database, so the "@ + "multipart HTTP"@
                            + " privilege of role '"@ + job.submitted_by
                            + "' cannot be verified."@,
                    }
                } else {
                    match job.payload {
                        PayloadView::Body(_) => "Blocked: role '"@ + job.submitted_by
                            + "' does not have EXECUTE privilege on "@ + "df.http()"@
                            + ". Grant EXECUTE ON FUNCTION "@
                            + "df.http(text,text,text,jsonb,integer,jsonb)"@ + " TO "@
                            + job.submitted_by + " to allow "@ + "HTTP"@ + " requests."@,
                        PayloadView::Parts(_) => "Blocked: role '"@ + job.submitted_by
                            + "' does not have EXECUTE privilege on "@ + "df.http_multipart()"@
                            + ". Grant EXECUTE ON FUNCTION "@
                            + "df.http_multipart(text,text,jsonb,jsonb,integer,jsonb)"@ + " TO "@
                            + job.submitted_by + " to allow "@ + "multipart HTTP"@
                            + " requests."@,
                    }
                },
            },
        ),
{
}

/// A URL that does not parse stops the job.
pub proof fn law_url_refused(
    policy: HttpPolicy,
    job: JobView,
    answers: AnswersView,
    why: Seq<char>,
)
    requires
        permitted(answers),
        parsed_url(job.url) == Err::<UrlView, Seq<char>>(why),
    ensures
        stopped(
            run(policy, job, answers),
            line_blocked(job, "malformed"@),
            "Blocked: malformed URL: "@ + why,
        ),
{
}

/// A scheme that the build does not accept stops the job.
pub proof fn law_scheme_refused(
    policy: HttpPolicy,
    job: JobView,
    answers: AnswersView,
    url: UrlView,
)
    requires
        permitted(answers),
        parsed_url(job.url) == Ok::<UrlView, Seq<char>>(url),
        !good_scheme(policy, url),
    ensures
        stopped(
            run(policy, job, answers),
            line_blocked(job, "scheme"@),
            if url.scheme == "http"@ {
                "Blocked: plaintext HTTP is not permitted in restricted builds. HTTPS is required."@
            } else {
                "Blocked: unsupported URL scheme '"@ + url.scheme + "'. Only "@ + (if policy
                    == HttpPolicy::AllowAll {
                    "http and https"@
                } else {
                    "https"@
                }) + " is allowed."@
            },
        ),
{
    law_scheme_answered(policy, url.scheme);
}

/// A host that the build does not approve stops the job.
pub proof fn law_host_refused(
    policy: HttpPolicy,
    job: JobView,
    answers: AnswersView,
    url: UrlView,
)
    requires
        permitted(answers),
        parsed_url(job.url) == Ok::<UrlView, Seq<char>>(url),
        good_scheme(policy, url),
        !good_host(policy, url),
    ensures
        stopped(
            run(policy, job, answers),
            line_blocked(job, "allowlist"@),
            if policy == HttpPolicy::Disabled {
                "Blocked: outbound HTTP requests are disabled. Rebuild with the 'http-allow-azure-domains' Cargo feature to enable them."@
            } else {
                match (url.domain, url.host) {
                    (Some(name), _) => "Blocked: '"@ + name
                        + "' is not in the allowed endpoint list. Only requests to approved Azure service domains are permitted."@,
                    (None, Some(_)) => "Blocked: requests to bare IP addresses are not permitted. Use an approved Azure service hostname instead."@,
                    (None, None) => "Blocked: '"@ + ""@
                        + "' is not in the allowed endpoint list. Only requests to approved Azure service domains are permitted."@,
                }
            },
        ),
{
    law_scheme_answered(policy, url.scheme);
    law_host_answered(policy, url);
}

/// A clear job is cleared as it is, under its own policy, with the canonical
/// text of its URL to be sent and the redacted form at hand; and its attempt is
/// the first line of the log.
pub proof fn law_clear_is_cleared(policy: HttpPolicy, job: JobView, answers: AnswersView)
    requires
        clear(policy, job, answers),
    ensures
        authorized(pending(policy, job), answers.verdict) is Ok,
        ({
            let cleared = authorized(pending(policy, job), answers.verdict)->Ok_0;
            &&& cleared.policy == policy
            &&& cleared.job == job
            &&& cleared.safe_url == redacted_url(job.url)
            &&& cleared.href == parsed_url(job.url)->Ok_0.href
        }),
        run(policy, job, answers).log.len() >= 1,
        run(policy, job, answers).log[0] == line_attempt(job),
{
    let url = parsed_url(job.url)->Ok_0;
    law_scheme_answered(policy, url.scheme);
    law_host_answered(policy, url);
}

/// A client that cannot be set up stops a clear job.
pub proof fn law_client_refused(
    policy: HttpPolicy,
    job: JobView,
    answers: AnswersView,
    why: Seq<char>,
)
    requires
        clear(policy, job, answers),
        answers.client == Err::<(), Seq<char>>(why),
    ensures
        stopped(
            run(policy, job, answers),
            line_attempt(job),
            "Failed to create HTTP client: "@ + why,
        ),
{
    law_clear_is_cleared(policy, job, answers);
}

/// A method that the activity does not have stops a clear job.
pub proof fn law_method_refused(policy: HttpPolicy, job: JobView, answers: AnswersView)
    requires
        clear(policy, job, answers),
        answers.client is Ok,
        !good_method(job),
    ensures
        stopped(
            run(policy, job, answers),
            line_attempt(job),
            match job.payload {
                PayloadView::Body(_) => "Unsupported HTTP method: "@ + job.method,
                PayloadView::Parts(_) => "Unsupported HTTP method for multipart: "@ + job.method,
            },
        ),
{
    law_clear_is_cleared(policy, job, answers);
    law_methods(job.method);
}

/// The first part that is not in order stops a clear job, and is blamed.
pub proof fn law_part_refused(
    policy: HttpPolicy,
    job: JobView,
    answers: AnswersView,
    parts: Seq<MultipartPartView>,
    i: int,
)
    requires
        clear(policy, job, answers),
        answers.client is Ok,
        good_method(job),
        job.payload == PayloadView::Parts(parts),
        0 <= i < parts.len(),
        forall|k: int| 0 <= k < i ==> part_in_order(#[trigger] parts[k]),
        !part_in_order(parts[i]),
    ensures
        stopped(run(policy, job, answers), line_attempt(job), part_blamed(parts[i])),
{
    law_clear_is_cleared(policy, job, answers);
    law_methods(job.method);
    law_first_bad_part_blamed(parts, i);
}

/// A request goes out exactly where the job is clear, the client is set up, the
/// method is one of the activity's, and all parts are in order.
pub proof fn law_sent_exactly_when(policy: HttpPolicy, job: JobView, answers: AnswersView)
    ensures
        run(policy, job, answers).sent is Some <==> clear(policy, job, answers)
            && answers.client is Ok && good_method(job) && good_payload(job.payload),
{
    law_methods(job.method);
    if !permitted(answers) {
        law_role_refused(policy, job, answers);
    } else {
        match parsed_url(job.url) {
            Err(why) => law_url_refused(policy, job, answers, why),
            Ok(url) => {
                if !good_scheme(policy, url) {
                    law_scheme_refused(policy, job, answers, url);
                } else if !good_host(policy, url) {
                    law_host_refused(policy, job, answers, url);
                } else {
                    law_clear_is_cleared(policy, job, answers);
                    if answers.client is Ok && good_method(job) {
                        if let PayloadView::Parts(parts) = job.payload {
                            if good_payload(job.payload) {
                                law_form_of_parts(parts);
                            } else {
                                let some = choose|i: int|
                                    0 <= i < parts.len() && !part_in_order(#[trigger] parts[i]);
                                let first = lemma_first(parts, some);
                                law_part_refused(policy, job, answers, parts, first);
                            }
                        }
                    }
                }
            },
        }
    }
}

proof fn lemma_first(parts: Seq<MultipartPartView>, some: int) -> (first: int)
    requires
        0 <= some < parts.len(),
        !part_in_order(parts[some]),
    ensures
        0 <= first < parts.len(),
        !part_in_order(parts[first]),
        forall|k: int| 0 <= k < first ==> part_in_order(#[trigger] parts[k]),
    decreases some,
{
    if exists|k: int| 0 <= k < some && !part_in_order(#[trigger] parts[k]) {
        let k = choose|k: int| 0 <= k < some && !part_in_order(#[trigger] parts[k]);
        lemma_first(parts, k)
    } else {
        some
    }
}

/// What goes out has the method of the job, the canonical text of its URL and
/// its headers.
pub proof fn law_request_of_job(policy: HttpPolicy, job: JobView, answers: AnswersView)
    requires
        run(policy, job, answers).sent is Some,
    ensures
        run(policy, job, answers).sent->0.method == job.method,
        run(policy, job, answers).sent->0.href == parsed_url(job.url)->Ok_0.href,
        run(policy, job, answers).sent->0.headers == sent_headers(
            match job.payload {
                PayloadView::Body(_) => Activity::Http,
                PayloadView::Parts(_) => Activity::Multipart,
            },
            job.headers,
        ),
{
    law_sent_exactly_when(policy, job, answers);
    law_clear_is_cleared(policy, job, answers);
}

/// A text goes out as it is, whatever the method; the body is empty exactly
/// where the job has no text; and parts go out as a form.
pub proof fn law_text_goes_out(policy: HttpPolicy, job: JobView, answers: AnswersView)
    requires
        run(policy, job, answers).sent is Some,
    ensures
        match job.payload {
            PayloadView::Body(Some(text)) => run(policy, job, answers).sent->0.body
                == RequestBodyView::Text(text),
            PayloadView::Body(None) => run(policy, job, answers).sent->0.body
                == RequestBodyView::Empty,
            PayloadView::Parts(_) => run(policy, job, answers).sent->0.body is Form,
        },
        run(policy, job, answers).sent->0.body is Empty <==> job.payload
            == PayloadView::Body(None),
{
    law_sent_exactly_when(policy, job, answers);
    law_clear_is_cleared(policy, job, answers);
    if let PayloadView::Parts(parts) = job.payload {
        law_form_of_parts(parts);
    }
}

/// The parts of a job go out as a form with as many parts: each, in its place,
/// has the name, the content type and the file name of the part of the job, and
/// as bytes what the payload of that part decodes to.
pub proof fn law_parts_go_out(
    policy: HttpPolicy,
    job: JobView,
    answers: AnswersView,
    parts: Seq<MultipartPartView>,
)
    requires
        run(policy, job, answers).sent is Some,
        job.payload == PayloadView::Parts(parts),
    ensures
        run(policy, job, answers).sent->0.body matches RequestBodyView::Form(form) && {
            &&& form.len() == parts.len()
            &&& forall|i: int|
                #![trigger form[i]]
                #![trigger parts[i]]
                0 <= i < parts.len() ==> {
                    &&& form[i].name == parts[i].name
                    &&& form[i].content_type == parts[i].content_type
                    &&& form[i].filename == parts[i].filename
                    &&& standard_decoded(stripped(parts[i].data_b64)) == Ok::<
                        Seq<u8>,
                        PartDataError,
                    >(form[i].bytes)
                }
        },
{
    law_sent_exactly_when(policy, job, answers);
    law_clear_is_cleared(policy, job, answers);
    law_form_of_parts(parts);
    let form = run(policy, job, answers).sent->0.body->Form_0;
    assert forall|i: int|
        #![trigger form[i]]
        #![trigger parts[i]]
        0 <= i < parts.len() implies {
            &&& form[i].name == parts[i].name
            &&& form[i].content_type == parts[i].content_type
            &&& form[i].filename == parts[i].filename
            &&& standard_decoded(stripped(parts[i].data_b64)) == Ok::<Seq<u8>, PartDataError>(
                form[i].bytes,
            )
        } by {
        assert(part_of(form[i], parts[i]));
    }
}

/// Every header of a job with a string value goes out, except for a
/// `Content-Type`, however it is written, on a form.
pub proof fn law_headers_go_out(
    policy: HttpPolicy,
    job: JobView,
    answers: AnswersView,
    entries: Seq<HeaderEntryView>,
    i: int,
    value: Seq<char>,
)
    requires
        run(policy, job, answers).sent is Some,
        job.headers == Some(entries),
        0 <= i < entries.len(),
        entries[i].value == Some(value),
        job.payload is Parts ==> !same_ignoring_case(entries[i].name, "content-type"@),
    ensures
        run(policy, job, answers).sent->0.headers.contains((entries[i].name, value)),
{
    law_request_of_job(policy, job, answers);
    law_string_headers_sent(
        match job.payload {
            PayloadView::Body(_) => Activity::Http,
            PayloadView::Parts(_) => Activity::Multipart,
        },
        entries,
        i,
        value,
    );
}

/// What is shown of an error text on a job.
pub open spec fn shown_on(job: JobView, text: Seq<char>) -> Seq<char> {
    redacted_report(text, parsed_url(job.url)->Ok_0.href, redacted_url(job.url))
}

/// A text says that an address was refused.
pub open spec fn says_refused(text: Seq<char>) -> bool {
    occurs_in(
        "' is in a restricted range. df.http() cannot access private or internal network addresses."@,
        text,
    )
}

/// Where the text of a failure, or else a cause of it, says that an address was
/// refused, the job fails with what is shown of that text, and a second line
/// says so.
pub proof fn law_address_refused(
    policy: HttpPolicy,
    job: JobView,
    answers: AnswersView,
    failure: SendFailureView,
    k: int,
)
    requires
        run(policy, job, answers).sent is Some,
        answers.reply == ReplyView::Failed(failure),
        says_refused(shown_on(job, failure.text)) || {
            &&& 0 <= k < failure.causes.len()
            &&& says_refused(shown_on(job, failure.causes[k]))
            &&& forall|i: int|
                0 <= i < k ==> !says_refused(shown_on(job, #[trigger] failure.causes[i]))
        },
    ensures
        run(policy, job, answers).log == seq![line_attempt(job), line_blocked(job, "ip"@)],
        run(policy, job, answers).result == Err::<Seq<char>, Seq<char>>(
            if says_refused(shown_on(job, failure.text)) {
                shown_on(job, failure.text)
            } else {
                shown_on(job, failure.causes[k])
            },
        ),
{
    law_sent_exactly_when(policy, job, answers);
    law_clear_is_cleared(policy, job, answers);
    let about = sent(authorized(pending(policy, job), answers.verdict)->Ok_0);
    if !says_refused(shown_on(job, failure.text)) {
        assert forall|i: int| 0 <= i < k implies !occurs_in(
            restricted_range_notice(),
            shown_text(about, #[trigger] failure.causes[i]),
        ) by {
            assert(!says_refused(shown_on(job, failure.causes[i])));
        }
        lemma_first_refusal(about, failure.causes, k);
    }
    assert(run(policy, job, answers).log =~= seq![line_attempt(job), line_blocked(job, "ip"@)]);
}

/// Any other failure is told by its sort, with the status if it carries one,
/// and without a line of its own: a timeout with the limit of the job, another
/// with what is shown of the client's text.
pub proof fn law_failure_told(
    policy: HttpPolicy,
    job: JobView,
    answers: AnswersView,
    failure: SendFailureView,
)
    requires
        run(policy, job, answers).sent is Some,
        answers.reply == ReplyView::Failed(failure),
        !says_refused(shown_on(job, failure.text)),
        forall|i: int|
            0 <= i < failure.causes.len() ==> !says_refused(
                shown_on(job, #[trigger] failure.causes[i]),
            ),
    ensures
        run(policy, job, answers).log == seq![line_attempt(job)],
        ({
            let status = match failure.status {
                Some(code) => " (HTTP "@ + decimal(code as nat) + ")"@,
                None => Seq::<char>::empty(),
            };
            run(policy, job, answers).result == Err::<Seq<char>, Seq<char>>(
                if failure.timeout {
                    "HTTP timeout after "@ + decimal(job.timeout_seconds as nat) + "s"@ + status
                        + ": "@ + redacted_url(job.url)
                } else if failure.connect {
                    "HTTP connection failed"@ + status + ": "@ + redacted_url(job.url) + " - "@
                        + shown_on(job, failure.text)
                } else {
                    "HTTP request failed"@ + status + ": "@ + redacted_url(job.url) + " - "@
                        + shown_on(job, failure.text)
                },
            )
        }),
{
    law_sent_exactly_when(policy, job, answers);
    law_clear_is_cleared(policy, job, answers);
    let about = sent(authorized(pending(policy, job), answers.verdict)->Ok_0);
    assert forall|i: int| 0 <= i < failure.causes.len() implies !occurs_in(
        restricted_range_notice(),
        shown_text(about, #[trigger] failure.causes[i]),
    ) by {
        assert(!says_refused(shown_on(job, failure.causes[i])));
    }
    lemma_no_refusal(about, failure.causes);
    assert(run(policy, job, answers).log =~= seq![line_attempt(job)]);
}

/// A body that cannot be read fails the job with what is shown of the error,
/// and no line of its own.
pub proof fn law_unread_body_told(
    policy: HttpPolicy,
    job: JobView,
    answers: AnswersView,
    response: ResponseView,
    why: Seq<char>,
)
    requires
        run(policy, job, answers).sent is Some,
        answers.reply == ReplyView::Answered(response),
        response.body == Err::<ResponseBodyView, Seq<char>>(why),
    ensures
        run(policy, job, answers).log == seq![line_attempt(job)],
        run(policy, job, answers).result == Err::<Seq<char>, Seq<char>>(shown_on(job, why)),
{
    law_sent_exactly_when(policy, job, answers);
    law_clear_is_cleared(policy, job, answers);
    assert(run(policy, job, answers).log =~= seq![line_attempt(job)]);
}

/// The envelope of a response: its status, the body and its encoding, all
/// headers, whether the status is from 200 to 299, and the duration.
pub open spec fn envelope_of(response: ResponseView, body: ResponseBodyView) -> Seq<
    (Seq<char>, JsonFieldView),
> {
    seq![
        ("status"@, JsonFieldView::Number(response.status as u64)),
        ("body"@, JsonFieldView::Text(body.text)),
        ("encoding"@, JsonFieldView::Text(body.encoding)),
        ("headers"@, JsonFieldView::Object(response.headers)),
        ("ok"@, JsonFieldView::Flag(200 <= response.status <= 299)),
        ("duration_ms"@, JsonFieldView::Number(response.duration_ms)),
    ]
}

/// A response whose body was read is logged with its status, whether it is a
/// success, the encoding and the duration. A status from 500 to 599 fails the
/// job; any other gives the envelope.
pub proof fn law_response_told(
    policy: HttpPolicy,
    job: JobView,
    answers: AnswersView,
    response: ResponseView,
    body: ResponseBodyView,
)
    requires
        run(policy, job, answers).sent is Some,
        answers.reply == ReplyView::Answered(response),
        response.body == Ok::<ResponseBodyView, Seq<char>>(body),
    ensures
        run(policy, job, answers).log == seq![
            line_attempt(job),
            word(job.payload) + " "@ + job.method + " completed: status="@ + decimal(
                response.status as nat,
            ) + ", ok="@ + (if 200 <= response.status <= 299 {
                "true"@
            } else {
                "false"@
            }) + ", encoding="@ + body.encoding + ", duration="@ + decimal(
                response.duration_ms as nat,
            ) + "ms"@,
        ],
        run(policy, job, answers).result == (if 500 <= response.status <= 599 {
            Err::<Seq<char>, Seq<char>>(
                word(job.payload) + " "@ + job.method + " "@ + redacted_url(job.url)
                    + " returned "@ + decimal(response.status as nat) + ": "@ + body.preview,
            )
        } else {
            Ok(
                json_object_text(envelope_of(response, body)),
            )
        }),
{
    law_sent_exactly_when(policy, job, answers);
    law_clear_is_cleared(policy, job, answers);
    assert(run(policy, job, answers).log.len() == 2);
    assert(run(policy, job, answers).log =~= seq![
        line_attempt(job),
        run(policy, job, answers).log[1],
    ]);
    assert(envelope_of(response, body) =~= envelope_fields(
        response.status,
        body,
        response.headers,
        200 <= response.status <= 299,
        response.duration_ms,
    ));
}

/// The job of an HTTP configuration with a role asks for what the configuration
/// does, on behalf of that role.
pub proof fn law_http_job_of_config(config: HttpConfigView, role: Seq<char>)
    requires
        config.submitted_by == Some(role),
    ensures
        http_job(Ok(config)) matches Ok(job) && {
            &&& job.url == config.url
            &&& job.method == config.method
            &&& job.headers == config.headers
            &&& job.timeout_seconds == config.timeout_seconds
            &&& job.submitted_by == role
            &&& job.payload == PayloadView::Body(config.body)
        },
{
}

/// The job of a multipart configuration with a role asks for what the
/// configuration does, on behalf of that role.
pub proof fn law_multipart_job_of_config(config: MultipartConfigView, role: Seq<char>)
    requires
        config.submitted_by == Some(role),
    ensures
        multipart_job(Ok(config)) matches Ok(job) && {
            &&& job.url == config.url
            &&& job.method == config.method
            &&& job.headers == config.headers
            &&& job.timeout_seconds == config.timeout_seconds
            &&& job.submitted_by == role
            &&& job.payload == PayloadView::Parts(config.parts)
        },
{
}

/// There is no job where the configuration cannot be read or has no role.
pub proof fn law_no_job(
    http: HttpConfigView,
    multipart: MultipartConfigView,
    why: Seq<char>,
)
    ensures
        http_job(Err(why)) == Err::<JobView, Seq<char>>("Invalid HTTP config: "@ + why),
        multipart_job(Err(why)) == Err::<JobView, Seq<char>>(
            "Invalid multipart HTTP config: "@ + why,
        ),
        http.submitted_by is None ==> http_job(Ok(http)) == Err::<JobView, Seq<char>>(
            "Blocked: HTTP node has no submitted_by \u{2014} cannot verify privilege"@,
        ),
        multipart.submitted_by is None ==> multipart_job(Ok(multipart)) == Err::<
            JobView,
            Seq<char>,
        >("Blocked: HTTP_MULTIPART node has no submitted_by \u{2014} cannot verify privilege"@),
{
}

/// A job that is taken up is that job, under that policy, with its redacted URL
/// at hand.
pub proof fn law_job_taken_up(policy: HttpPolicy, job: JobView)
    ensures
        pending(policy, job).policy == policy,
        pending(policy, job).job == job,
        pending(policy, job).safe_url == redacted_url(job.url),
{
}

/// Every header that an HTTP node is configured with, and whose value is a
/// string, goes out with its request.
pub proof fn law_http_config_headers_go_out(
    policy: HttpPolicy,
    config: HttpConfigView,
    answers: AnswersView,
    entries: Seq<HeaderEntryView>,
    i: int,
    value: Seq<char>,
)
    requires
        http_job(Ok(config)) is Ok,
        run(policy, http_job(Ok(config))->Ok_0, answers).sent is Some,
        config.headers == Some(entries),
        0 <= i < entries.len(),
        entries[i].value == Some(value),
    ensures
        run(policy, http_job(Ok(config))->Ok_0, answers).sent->0.headers.contains(
            (entries[i].name, value),
        ),
{
    let role = config.submitted_by->0;
    law_http_job_of_config(config, role);
    law_headers_go_out(policy, http_job(Ok(config))->Ok_0, answers, entries, i, value);
}

/// Every header that a multipart node is configured with, whose value is a
/// string and which is not named `Content-Type` in any case, goes out with its
/// request.
pub proof fn law_multipart_config_headers_go_out(
    policy: HttpPolicy,
    config: MultipartConfigView,
    answers: AnswersView,
    entries: Seq<HeaderEntryView>,
    i: int,
    value: Seq<char>,
)
    requires
        multipart_job(Ok(config)) is Ok,
        run(policy, multipart_job(Ok(config))->Ok_0, answers).sent is Some,
        config.headers == Some(entries),
        0 <= i < entries.len(),
        entries[i].value == Some(value),
        !same_ignoring_case(entries[i].name, "content-type"@),
    ensures
        run(policy, multipart_job(Ok(config))->Ok_0, answers).sent->0.headers.contains(
            (entries[i].name, value),
        ),
{
    let role = config.submitted_by->0;
    law_multipart_job_of_config(config, role);
    law_headers_go_out(policy, multipart_job(Ok(config))->Ok_0, answers, entries, i, value);
}

/// The text that an HTTP node is configured with goes out as it is.
pub proof fn law_http_config_body_goes_out(
    policy: HttpPolicy,
    config: HttpConfigView,
    answers: AnswersView,
)
    requires
        http_job(Ok(config)) is Ok,
        run(policy, http_job(Ok(config))->Ok_0, answers).sent is Some,
    ensures
        run(policy, http_job(Ok(config))->Ok_0, answers).sent->0.method == config.method,
        run(policy, http_job(Ok(config))->Ok_0, answers).sent->0.body == (match config.body {
            Some(text) => RequestBodyView::Text(text),
            None => RequestBodyView::Empty,
        }),
{
    law_http_job_of_config(config, config.submitted_by->0);
    law_text_goes_out(policy, http_job(Ok(config))->Ok_0, answers);
    law_request_of_job(policy, http_job(Ok(config))->Ok_0, answers);
}

/// The parts that a multipart node is configured with go out as a form, each in
/// its place.
pub proof fn law_multipart_config_parts_go_out(
    policy: HttpPolicy,
    config: MultipartConfigView,
    answers: AnswersView,
)
    requires
        multipart_job(Ok(config)) is Ok,
        run(policy, multipart_job(Ok(config))->Ok_0, answers).sent is Some,
    ensures
        run(policy, multipart_job(Ok(config))->Ok_0, answers).sent->0.method == config.method,
        run(policy, multipart_job(Ok(config))->Ok_0, answers).sent->0.body
            matches RequestBodyView::Form(form) && {
            &&& form.len() == config.parts.len()
            &&& forall|i: int|
                0 <= i < form.len() ==> {
                    &&& (#[trigger] form[i]).name == config.parts[i].name
                    &&& form[i].content_type == config.parts[i].content_type
                    &&& form[i].filename == config.parts[i].filename
                    &&& standard_decoded(stripped(config.parts[i].data_b64)) == Ok::<
                        Seq<u8>,
                        PartDataError,
                    >(form[i].bytes)
                }
        },
{
    law_multipart_job_of_config(config, config.submitted_by->0);
    law_parts_go_out(policy, multipart_job(Ok(config))->Ok_0, answers, config.parts);
    law_request_of_job(policy, multipart_job(Ok(config))->Ok_0, answers);
}

/// The catalog is asked about the role of the job, by the query for its
/// activity; and a client is set up, under the policy and with the time limit of
/// the job, exactly where the job is clear.
pub proof fn law_world_asked(policy: HttpPolicy, job: JobView, answers: AnswersView)
    ensures
        run(policy, job, answers).role == job.submitted_by,
        run(policy, job, answers).query == privilege_query_for(
            match job.payload {
                PayloadView::Body(_) => Activity::Http,
                PayloadView::Parts(_) => Activity::Multipart,
            },
        ),
        run(policy, job, answers).client == (if clear(policy, job, answers) {
            Some(client_for(policy, job.timeout_seconds))
        } else {
            None
        }),
{
    if clear(policy, job, answers) {
        law_clear_is_cleared(policy, job, answers);
    } else if permitted(answers) {
        if let Ok(url) = parsed_url(job.url) {
            law_scheme_answered(policy, url.scheme);
            law_host_answered(policy, url);
        }
    }
}

/// A node runs as the job that its configuration describes, and not at all
/// where it describes none.
pub proof fn law_nodes_run(
    policy: HttpPolicy,
    http: HttpConfigView,
    multipart: MultipartConfigView,
    role: Seq<char>,
    why: Seq<char>,
    answers: AnswersView,
)
    ensures
        http.submitted_by == Some(role) ==> run_http(policy, Ok(http), answers) == Ok::<
            RecordView,
            Seq<char>,
        >(
            run(
                policy,
                JobView {
                    url: http.url,
                    method: http.method,
                    headers: http.headers,
                    timeout_seconds: http.timeout_seconds,
                    submitted_by: role,
                    payload: PayloadView::Body(http.body),
                },
                answers,
            ),
        ),
        http.submitted_by is None ==> run_http(policy, Ok(http), answers) is Err,
        run_http(policy, Err(why), answers) == Err::<RecordView, Seq<char>>(
            "Invalid HTTP config: "@ + why,
        ),
        multipart.submitted_by == Some(role) ==> run_multipart(policy, Ok(multipart), answers)
            == Ok::<RecordView, Seq<char>>(
            run(
                policy,
                JobView {
                    url: multipart.url,
                    method: multipart.method,
                    headers: multipart.headers,
                    timeout_seconds: multipart.timeout_seconds,
                    submitted_by: role,
                    payload: PayloadView::Parts(multipart.parts),
                },
                answers,
            ),
        ),
        multipart.submitted_by is None ==> run_multipart(policy, Ok(multipart), answers) is Err,
        run_multipart(policy, Err(why), answers) == Err::<RecordView, Seq<char>>(
            "Invalid multipart HTTP config: "@ + why,
        ),
{
}

} // verus!
