//! The steps of one exchange, shared by both activities. A job is first
//! `Pending`, then `Cleared`, then on its way (`Sent`). Each step takes what
//! the outside world answered to the step before, and no step can be skipped.
use vstd::prelude::*;
use vstd::string::*;

use crate::activities::execute_http::{check_http_privilege, client_settings, ClientSettings};
#[allow(unused_imports)]
use crate::activities::execute_http::client_for;
use crate::activities::execute_multipart::check_multipart_privilege;
use crate::activities::http_response::{build_envelope, ResponseBody};
#[allow(unused_imports)]
use crate::activities::http_response::{envelope_fields, json_object_text, ResponseBodyView};
use crate::activities::privilege::query_text;
#[allow(unused_imports)]
use crate::activities::privilege::{privilege_answer, privilege_query_for, verdict_view};
use crate::activities::request::{check_method, request_body, request_headers};
#[allow(unused_imports)]
use crate::activities::request::{method_answer, sent_body, sent_headers};
use crate::address::is_ssrf_block_error;
#[allow(unused_imports)]
use crate::address::restricted_range_notice;
use crate::redact::{redact_report, redact_url};
#[allow(unused_imports)]
use crate::redact::{redacted_report, redacted_url};
use crate::ssrf::{check_target, parse_request_url, HttpPolicy};
#[allow(unused_imports)]
use crate::ssrf::{allowlist_answer, request_url, scheme_answer, target_answer};
use crate::text::decimal_text;
#[allow(unused_imports)]
use crate::text::{decimal, occurs_in, option_view, outcome_view, stands_at};
use crate::types::{Activity, Job, Payload, Request};
#[allow(unused_imports)]
use crate::types::{pairs_view, JobView, PayloadView, RequestView};

verus! {

/// The word that starts each log line of an activity.
pub open spec fn tag(activity: Activity) -> Seq<char> {
    match activity {
        Activity::Http => "HTTP"@,
        Activity::Multipart => "HTTP_MULTIPART"@,
    }
}

fn tag_text(activity: Activity) -> (text: &'static str)
    ensures
        text@ == tag(activity),
{
    match activity {
        Activity::Http => "HTTP",
        Activity::Multipart => "HTTP_MULTIPART",
    }
}

/// The log line for a blocked request.
pub open spec fn blocked_line(
    activity: Activity,
    reason: Seq<char>,
    safe_url: Seq<char>,
    role: Seq<char>,
) -> Seq<char> {
    tag(activity) + " BLOCKED ("@ + reason + ") url="@ + safe_url + " submitted_by="@ + role
}

fn report_blocked(activity: Activity, reason: &str, safe_url: &str, role: &str) -> (line: String)
    ensures
        line@ == blocked_line(activity, reason@, safe_url@, role@),
{
    let mut line = tag_text(activity).to_owned();
    line.append(" BLOCKED (");
    line.append(reason);
    line.append(") url=");
    line.append(safe_url);
    line.append(" submitted_by=");
    line.append(role);
    line
}

/// What the log line for an attempt says of the payload: how many parts a form
/// has, and nothing of a body.
pub open spec fn size_note(payload: PayloadView) -> Seq<char> {
    match payload {
        PayloadView::Body(_) => Seq::<char>::empty(),
        PayloadView::Parts(parts) => " ("@ + decimal(parts.len()) + " parts)"@,
    }
}

/// The log line for a request that is about to be sent.
pub open spec fn attempt_line(job: JobView, safe_url: Seq<char>) -> Seq<char> {
    tag(job.activity()) + " "@ + job.method + " "@ + safe_url + size_note(job.payload)
        + " submitted_by="@ + job.submitted_by
}

fn report_attempt(job: &Job, safe_url: &str) -> (line: String)
    ensures
        line@ == attempt_line(job@, safe_url@),
{
    let mut line = tag_text(job.activity()).to_owned();
    line.append(" ");
    line.append(job.method.as_str());
    line.append(" ");
    line.append(safe_url);
    let mut note = String::new();
    if let Payload::Parts(parts) = &job.payload {
        note.append(" (");
        note.append(decimal_text(parts.len() as u64).as_str());
        note.append(" parts)");
        assert(note@ == size_note(job@.payload));
    }
    line.append(note.as_str());
    line.append(" submitted_by=");
    line.append(job.submitted_by.as_str());
    line
}

/// The mathematical value of a `Pending`.
pub struct PendingView {
    pub policy: HttpPolicy,
    pub job: JobView,
    pub safe_url: Seq<char>,
}

/// The mathematical value of a `Cleared`.
pub struct ClearedView {
    pub policy: HttpPolicy,
    pub job: JobView,
    pub safe_url: Seq<char>,
    pub href: Seq<char>,
}

/// A job whose role has not been checked yet.
pub struct Pending {
    policy: HttpPolicy,
    job: Job,
    safe_url: String,
}

/// A job that may be sent.
pub struct Cleared {
    policy: HttpPolicy,
    job: Job,
    safe_url: String,
    href: String,
}

impl View for Pending {
    type V = PendingView;

    closed spec fn view(&self) -> PendingView {
        PendingView { policy: self.policy, job: self.job@, safe_url: self.safe_url@ }
    }
}

impl View for Cleared {
    type V = ClearedView;

    closed spec fn view(&self) -> ClearedView {
        ClearedView {
            policy: self.policy,
            job: self.job@,
            safe_url: self.safe_url@,
            href: self.href@,
        }
    }
}

/// What every cleared job has passed. Its URL parsed; scheme and host of that
/// parse were accepted; `href` is the canonical text of the same parse; only
/// the redacted URL is at hand for logs and errors. In a restricted build
/// `href` is an `https` URL.
pub open spec fn approved(cleared: ClearedView) -> bool {
    &&& request_url(cleared.job.url) matches Ok(url) && {
        &&& url.href == cleared.href
        &&& scheme_answer(cleared.policy, url.scheme) is Ok
        &&& allowlist_answer(cleared.policy, url) is Ok
    }
    &&& cleared.safe_url == redacted_url(cleared.job.url)
    &&& cleared.policy.restricted() ==> stands_at(cleared.href, "https:"@, 0)
}

/// What a job is at the start.
pub open spec fn pending(policy: HttpPolicy, job: JobView) -> PendingView {
    PendingView { policy, job, safe_url: redacted_url(job.url) }
}

/// Where the checks lead: to clearance, or to the answer of the first check
/// that fails, the privilege first and then the target.
pub open spec fn authorized(
    pending: PendingView,
    verdict: Result<Option<Seq<char>>, Seq<char>>,
) -> Result<ClearedView, Seq<char>> {
    match privilege_answer(pending.job.activity(), verdict, pending.job.submitted_by) {
        Err(e) => Err(e),
        Ok(()) => match target_answer(pending.policy, request_url(pending.job.url)) {
            Err(refusal) => Err(refusal.message),
            Ok(href) => Ok(
                ClearedView {
                    policy: pending.policy,
                    job: pending.job,
                    safe_url: pending.safe_url,
                    href,
                },
            ),
        },
    }
}

/// The reason in the log line for a blocked request; none where it is cleared.
pub open spec fn block_reason(
    pending: PendingView,
    verdict: Result<Option<Seq<char>>, Seq<char>>,
) -> Option<Seq<char>> {
    if privilege_answer(pending.job.activity(), verdict, pending.job.submitted_by) is Err {
        Some("privilege"@)
    } else {
        match target_answer(pending.policy, request_url(pending.job.url)) {
            Err(refusal) => Some(refusal.reason),
            Ok(_) => None,
        }
    }
}

/// The one log line that the checks write.
pub open spec fn authorization_line(
    pending: PendingView,
    verdict: Result<Option<Seq<char>>, Seq<char>>,
) -> Seq<char> {
    match block_reason(pending, verdict) {
        Some(reason) => blocked_line(
            pending.job.activity(),
            reason,
            pending.safe_url,
            pending.job.submitted_by,
        ),
        None => attempt_line(pending.job, pending.safe_url),
    }
}

/// The outcome of the checks as a mathematical value.
pub open spec fn clearance_view(clearance: Result<Cleared, String>) -> Result<
    ClearedView,
    Seq<char>,
> {
    match clearance {
        Ok(cleared) => Ok(cleared@),
        Err(e) => Err(e@),
    }
}

impl Pending {
    #[verifier::type_invariant]
    spec fn redacts(self) -> bool {
        self.safe_url@ == redacted_url(self.job@.url)
    }

    /// Takes up a job.
    pub fn new(policy: HttpPolicy, job: Job) -> (taken: Pending)
        ensures
            taken@ == pending(policy, job@),
    {
        let safe_url = redact_url(job.url.as_str());
        Pending { policy, job, safe_url }
    }

    /// The role whose privilege has to be looked up.
    pub fn submitted_by(&self) -> (role: &str)
        ensures
            role@ == self@.job.submitted_by,
    {
        self.job.submitted_by.as_str()
    }

    /// The catalog query on the privilege of that role, which is its `$1`.
    pub fn privilege_query(&self) -> (query: &'static str)
        ensures
            query@ == privilege_query_for(self@.job.activity()),
    {
        query_text(self.job.activity())
    }

    fn blocked(&self, reason: &str) -> (line: String)
        ensures
            line@ == blocked_line(
                self@.job.activity(),
                reason@,
                self@.safe_url,
                self@.job.submitted_by,
            ),
    {
        report_blocked(
            self.job.activity(),
            reason,
            self.safe_url.as_str(),
            self.job.submitted_by.as_str(),
        )
    }

    /// Runs the checks, given the catalog's answer for the role. Returns the
    /// line to log, and clearance or the answer of the first check that fails.
    pub fn authorize(self, verdict: Result<Option<String>, String>) -> (outcome: (
        String,
        Result<Cleared, String>,
    ))
        ensures
            outcome.0@ == authorization_line(self@, verdict_view(verdict)),
            clearance_view(outcome.1) == authorized(self@, verdict_view(verdict)),
            outcome.1 matches Ok(cleared) ==> approved(cleared@),
    {
        proof {
            use_type_invariant(&self);
        }
        let role = self.job.submitted_by.as_str();
        let privilege = match self.job.activity() {
            Activity::Http => check_http_privilege(verdict, role),
            Activity::Multipart => check_multipart_privilege(verdict, role),
        };
        match privilege {
            Err(e) => return (self.blocked("privilege"), Err(e)),
            Ok(()) => {},
        }
        let parsed = parse_request_url(self.job.url.as_str());
        let href = match check_target(self.policy, parsed) {
            Err(refusal) => return (self.blocked(refusal.reason), Err(refusal.message)),
            Ok(href) => href,
        };
        let line = report_attempt(&self.job, self.safe_url.as_str());
        proof {
            reveal_strlit("https");
            reveal_strlit("https:");
            assert("https"@.push(':') =~= "https:"@);
        }
        let cleared = Cleared {
            policy: self.policy,
            job: self.job,
            safe_url: self.safe_url,
            href,
        };
        (line, Ok(cleared))
    }
}

/// What is needed to report on a request once it is on its way.
pub struct Sent {
    activity: Activity,
    method: String,
    timeout_seconds: u64,
    submitted_by: String,
    safe_url: String,
    href: String,
}

/// The mathematical value of a `Sent`.
pub struct SentView {
    pub activity: Activity,
    pub method: Seq<char>,
    pub timeout_seconds: u64,
    pub submitted_by: Seq<char>,
    pub safe_url: Seq<char>,
    /// What was requested. It is looked for in error texts and never shown.
    pub href: Seq<char>,
}

impl View for Sent {
    type V = SentView;

    closed spec fn view(&self) -> SentView {
        SentView {
            activity: self.activity,
            method: self.method@,
            timeout_seconds: self.timeout_seconds,
            submitted_by: self.submitted_by@,
            safe_url: self.safe_url@,
            href: self.href@,
        }
    }
}

/// What reports on a cleared job speak of.
pub open spec fn sent(cleared: ClearedView) -> SentView {
    SentView {
        activity: cleared.job.activity(),
        method: cleared.job.method,
        timeout_seconds: cleared.job.timeout_seconds,
        submitted_by: cleared.job.submitted_by,
        safe_url: cleared.safe_url,
        href: cleared.href,
    }
}

/// The request of a cleared job, or the first reason why there is none: the
/// client, the method or a part of the form.
pub open spec fn requested(cleared: ClearedView, client: Result<(), Seq<char>>) -> Result<
    RequestView,
    Seq<char>,
> {
    match client {
        Err(e) => Err("Failed to create HTTP client: "@ + e),
        Ok(()) => match method_answer(cleared.job.activity(), cleared.job.method) {
            Err(e) => Err(e),
            Ok(()) => match sent_body(cleared.job.payload) {
                Err(e) => Err(e),
                Ok(body) => Ok(
                    RequestView {
                        method: cleared.job.method,
                        href: cleared.href,
                        headers: sent_headers(cleared.job.activity(), cleared.job.headers),
                        body,
                    },
                ),
            },
        },
    }
}

/// A request with what is needed to report on it, or the error instead of it,
/// as a mathematical value.
pub open spec fn departure_view(departure: Result<(Request, Sent), String>) -> Result<
    (RequestView, SentView),
    Seq<char>,
> {
    match departure {
        Ok((request, sent)) => Ok((request@, sent@)),
        Err(e) => Err(e@),
    }
}

impl Cleared {
    #[verifier::type_invariant]
    spec fn passed(self) -> bool {
        approved(self@)
    }

    /// How the client for the request is set up.
    pub fn client(&self) -> (settings: ClientSettings)
        ensures
            settings@ == client_for(self@.policy, self@.job.timeout_seconds),
    {
        client_settings(self.policy, self.job.timeout_seconds)
    }

    /// Makes the request, given whether the client could be set up.
    pub fn request(self, client: Result<(), String>) -> (departure: Result<
        (Request, Sent),
        String,
    >)
        ensures
            departure_view(departure) == (match requested(self@, outcome_view(client)) {
                Ok(request) => Ok((request, sent(self@))),
                Err(e) => Err(e),
            }),
            approved(self@),
    {
        proof {
            use_type_invariant(&self);
        }
        if let Err(e) = client {
            let mut message = "Failed to create HTTP client: ".to_owned();
            message.append(e.as_str());
            return Err(message);
        }
        let activity = self.job.activity();
        if let Err(e) = check_method(activity, self.job.method.as_str()) {
            return Err(e);
        }
        let headers = request_headers(activity, &self.job.headers);
        let body = match request_body(self.job.payload) {
            Ok(body) => body,
            Err(e) => return Err(e),
        };
        let sent = Sent {
            activity,
            method: self.job.method.clone(),
            timeout_seconds: self.job.timeout_seconds,
            submitted_by: self.job.submitted_by,
            safe_url: self.safe_url,
            href: self.href.clone(),
        };
        Ok((Request { method: self.job.method, href: self.href, headers, body }, sent))
    }
}

/// Why no response came, as the HTTP client tells it.
pub struct SendFailure {
    /// The text of the error.
    pub text: String,
    /// The texts of its causes, outermost first.
    pub causes: Vec<String>,
    /// The HTTP status that the error carries.
    pub status: Option<u16>,
    /// The time limit was exceeded.
    pub timeout: bool,
    /// No connection could be made.
    pub connect: bool,
}

/// The mathematical value of a `SendFailure`.
pub struct SendFailureView {
    pub text: Seq<char>,
    pub causes: Seq<Seq<char>>,
    pub status: Option<u16>,
    pub timeout: bool,
    pub connect: bool,
}

impl View for SendFailure {
    type V = SendFailureView;

    open spec fn view(&self) -> SendFailureView {
        SendFailureView {
            text: self.text@,
            causes: self.causes@.map_values(|cause: String| cause@),
            status: self.status,
            timeout: self.timeout,
            connect: self.connect,
        }
    }
}

/// What is shown of an error text on a request: the URL that was requested is
/// replaced by its redacted form, and other URLs are redacted.
pub open spec fn shown_text(sent: SentView, text: Seq<char>) -> Seq<char> {
    redacted_report(text, sent.href, sent.safe_url)
}

/// The first of some texts, as they are shown, that says that an address was
/// refused.
pub open spec fn first_refusal(sent: SentView, texts: Seq<Seq<char>>) -> Option<Seq<char>>
    decreases texts.len(),
{
    if texts.len() == 0 {
        None
    } else if occurs_in(restricted_range_notice(), shown_text(sent, texts[0])) {
        Some(shown_text(sent, texts[0]))
    } else {
        first_refusal(sent, texts.skip(1))
    }
}

/// Where the failure is that an address was refused, what is shown of the text
/// that says so: the error itself, or else a cause of it.
pub open spec fn refusal(sent: SentView, failure: SendFailureView) -> Option<Seq<char>> {
    if occurs_in(restricted_range_notice(), shown_text(sent, failure.text)) {
        Some(shown_text(sent, failure.text))
    } else {
        first_refusal(sent, failure.causes)
    }
}

/// What an error says of the status that the failure carries.
pub open spec fn status_note(status: Option<u16>) -> Seq<char> {
    match status {
        Some(code) => " (HTTP "@ + decimal(code as nat) + ")"@,
        None => Seq::empty(),
    }
}

/// The error for a request without a response. The client's own text is shown
/// redacted.
pub open spec fn failure_message(sent: SentView, failure: SendFailureView) -> Seq<char> {
    match refusal(sent, failure) {
        Some(text) => text,
        None => if failure.timeout {
            "HTTP timeout after "@ + decimal(sent.timeout_seconds as nat) + "s"@ + status_note(
                failure.status,
            ) + ": "@ + sent.safe_url
        } else {
            (if failure.connect {
                "HTTP connection failed"@
            } else {
                "HTTP request failed"@
            }) + status_note(failure.status) + ": "@ + sent.safe_url + " - "@ + shown_text(
                sent,
                failure.text,
            )
        },
    }
}

/// The log line for a request without a response: there is one where an address
/// was refused.
pub open spec fn failure_line(sent: SentView, failure: SendFailureView) -> Option<Seq<char>> {
    match refusal(sent, failure) {
        Some(_) => Some(blocked_line(sent.activity, "ip"@, sent.safe_url, sent.submitted_by)),
        None => None,
    }
}

/// Whether a response is reported as a success to the workflow.
pub open spec fn success(status: u16) -> bool {
    200 <= status <= 299
}

/// The status is the server's failure, which a retry may overcome.
pub open spec fn server_error(status: u16) -> bool {
    500 <= status <= 599
}

/// What came back from a request.
pub struct Response {
    pub status: u16,
    pub headers: Vec<(String, String)>,
    /// The body, or the words in which reading it failed.
    pub body: Result<ResponseBody, String>,
    pub duration_ms: u64,
}

/// The mathematical value of a `Response`.
pub struct ResponseView {
    pub status: u16,
    pub headers: Seq<(Seq<char>, Seq<char>)>,
    pub body: Result<ResponseBodyView, Seq<char>>,
    pub duration_ms: u64,
}

impl View for Response {
    type V = ResponseView;

    open spec fn view(&self) -> ResponseView {
        ResponseView {
            status: self.status,
            headers: pairs_view(self.headers@),
            body: match self.body {
                Ok(body) => Ok(body@),
                Err(e) => Err(e@),
            },
            duration_ms: self.duration_ms,
        }
    }
}

/// What the log line for a response says of success.
pub open spec fn flag_text(flag: bool) -> Seq<char> {
    if flag {
        "true"@
    } else {
        "false"@
    }
}

/// The log line for a response: there is one where its body could be read.
pub open spec fn completion_line(sent: SentView, response: ResponseView) -> Option<Seq<char>> {
    match response.body {
        Ok(body) => Some(
            tag(sent.activity) + " "@ + sent.method + " completed: status="@ + decimal(
                response.status as nat,
            ) + ", ok="@ + flag_text(success(response.status)) + ", encoding="@ + body.encoding
                + ", duration="@ + decimal(response.duration_ms as nat) + "ms"@,
        ),
        Err(_) => None,
    }
}

/// The result of the activity. The server's failures fail the activity, and so
/// does a body that cannot be read; every other response, the caller's errors
/// among them, is returned as an envelope.
pub open spec fn completed(sent: SentView, response: ResponseView) -> Result<
    Seq<char>,
    Seq<char>,
> {
    match response.body {
        Err(e) => Err(shown_text(sent, e)),
        Ok(body) => if server_error(response.status) {
            Err(
                tag(sent.activity) + " "@ + sent.method + " "@ + sent.safe_url + " returned "@
                    + decimal(response.status as nat) + ": "@ + body.preview,
            )
        } else {
            Ok(
                json_object_text(
                    envelope_fields(
                        response.status,
                        body,
                        response.headers,
                        success(response.status),
                        response.duration_ms,
                    ),
                ),
            )
        },
    }
}

/// A result of an activity as a mathematical value.
pub open spec fn result_view(result: Result<String, String>) -> Result<Seq<char>, Seq<char>> {
    match result {
        Ok(text) => Ok(text@),
        Err(e) => Err(e@),
    }
}

impl Sent {
    /// What is shown of an error text on the request.
    fn show(&self, text: &str) -> (shown: String)
        ensures
            shown@ == shown_text(self@, text@),
    {
        redact_report(text, self.href.as_str(), self.safe_url.as_str())
    }

    fn find_refusal(&self, failure: &SendFailure) -> (found: Option<String>)
        ensures
            option_view(found) == refusal(self@, failure@),
    {
        let shown = self.show(failure.text.as_str());
        if is_ssrf_block_error(shown.as_str()) {
            return Some(shown);
        }
        let ghost all = failure@.causes;
        let mut i: usize = 0;
        assert(all.skip(0) =~= all);
        while i < failure.causes.len()
            invariant
                0 <= i <= failure.causes@.len(),
                all == failure.causes@.map_values(|cause: String| cause@),
                all == failure@.causes,
                !occurs_in(restricted_range_notice(), shown_text(self@, failure.text@)),
                first_refusal(self@, all) == first_refusal(self@, all.skip(i as int)),
            decreases failure.causes@.len() - i,
        {
            let shown = self.show(failure.causes[i].as_str());
            assert(all.skip(i as int)[0] == failure.causes@[i as int]@);
            if is_ssrf_block_error(shown.as_str()) {
                return Some(shown);
            }
            assert(all.skip(i as int).skip(1) =~= all.skip(i + 1));
            i = i + 1;
        }
        None
    }

    /// Reports that no response came: the line to log, if any, and the error.
    pub fn send_failed(&self, failure: &SendFailure) -> (report: (Option<String>, String))
        ensures
            option_view(report.0) == failure_line(self@, failure@),
            report.1@ == failure_message(self@, failure@),
    {
        if let Some(text) = self.find_refusal(failure) {
            let line = report_blocked(
                self.activity,
                "ip",
                self.safe_url.as_str(),
                self.submitted_by.as_str(),
            );
            return (Some(line), text);
        }
        let mut note = String::new();
        if let Some(code) = failure.status {
            note.append(" (HTTP ");
            note.append(decimal_text(code as u64).as_str());
            note.append(")");
        }
        assert(note@ =~= status_note(failure@.status));
        if failure.timeout {
            let mut message = "HTTP timeout after ".to_owned();
            message.append(decimal_text(self.timeout_seconds).as_str());
            message.append("s");
            message.append(note.as_str());
            message.append(": ");
            message.append(self.safe_url.as_str());
            return (None, message);
        }
        let mut message = if failure.connect {
            "HTTP connection failed".to_owned()
        } else {
            "HTTP request failed".to_owned()
        };
        message.append(note.as_str());
        message.append(": ");
        message.append(self.safe_url.as_str());
        message.append(" - ");
        message.append(self.show(failure.text.as_str()).as_str());
        (None, message)
    }

    fn completion(&self, status: u16, encoding: &str, duration_ms: u64) -> (line: String)
        ensures
            line@ == tag(self@.activity) + " "@ + self@.method + " completed: status="@ + decimal(
                status as nat,
            ) + ", ok="@ + flag_text(success(status)) + ", encoding="@ + encoding@
                + ", duration="@ + decimal(duration_ms as nat) + "ms"@,
    {
        let mut line = tag_text(self.activity).to_owned();
        line.append(" ");
        line.append(self.method.as_str());
        line.append(" completed: status=");
        line.append(decimal_text(status as u64).as_str());
        line.append(", ok=");
        line.append(if 200 <= status && status <= 299 {
            "true"
        } else {
            "false"
        });
        line.append(", encoding=");
        line.append(encoding);
        line.append(", duration=");
        line.append(decimal_text(duration_ms).as_str());
        line.append("ms");
        line
    }

    /// Reports on a response: the line to log, if any, and the result.
    pub fn completed(&self, response: Response) -> (report: (
        Option<String>,
        Result<String, String>,
    ))
        ensures
            option_view(report.0) == completion_line(self@, response@),
            result_view(report.1) == completed(self@, response@),
    {
        let status: u16 = response.status;
        let body = match response.body {
            Ok(body) => body,
            Err(e) => return (None, Err(self.show(e.as_str()))),
        };
        let line = self.completion(status, body.encoding, response.duration_ms);
        let ok = 200 <= status && status <= 299;
        let envelope = build_envelope(status, &body, response.headers, ok, response.duration_ms);
        if 500 <= status && status <= 599 {
            let mut message = tag_text(self.activity).to_owned();
            message.append(" ");
            message.append(self.method.as_str());
            message.append(" ");
            message.append(self.safe_url.as_str());
            message.append(" returned ");
            message.append(decimal_text(status as u64).as_str());
            message.append(": ");
            message.append(body.preview.as_str());
            return (Some(line), Err(message));
        }
        (Some(line), Ok(envelope))
    }
}

} // verus!
