//! An exchange from its job to its result, with the outside world's answers at
//! hand: the steps in their order, each given the answer that it waits for.
use vstd::prelude::*;
use vstd::string::*;

use crate::activities::exchange::{Pending, Response, SendFailure};
#[allow(unused_imports)]
use crate::activities::exchange::{
    authorization_line, authorized, completed, completion_line, failure_line, failure_message,
    pending, requested, result_view, sent, PendingView, ResponseView, SendFailureView,
};
use crate::activities::execute_http::{self, ClientSettings};
#[allow(unused_imports)]
use crate::activities::execute_http::{client_for, http_job, ClientSettingsView};
use crate::activities::execute_multipart;
#[allow(unused_imports)]
use crate::activities::execute_multipart::multipart_job;
#[allow(unused_imports)]
use crate::activities::privilege::{privilege_query_for, verdict_view};
use crate::ssrf::HttpPolicy;
#[allow(unused_imports)]
use crate::text::outcome_view;
use crate::types::{HttpConfig, Job, MultipartConfig, Request};
#[allow(unused_imports)]
use crate::types::{HttpConfigView, JobView, MultipartConfigView, RequestView};

verus! {

/// What comes back from a request.
pub enum Reply {
    Failed(SendFailure),
    Answered(Response),
}

/// What the outside world answers in the course of an exchange.
pub struct Answers {
    /// The catalog's answer on the role.
    pub verdict: Result<Option<String>, String>,
    /// Whether the client could be set up.
    pub client: Result<(), String>,
    pub reply: Reply,
}

/// What an exchange leaves behind.
pub struct Record {
    /// The role that the catalog was asked about.
    pub role: String,
    /// The query that it was asked by.
    pub query: &'static str,
    /// How the client was to be set up, where the job was cleared.
    pub client: Option<ClientSettings>,
    pub log: Vec<String>,
    /// The request that went out, if one did.
    pub sent: Option<Request>,
    pub result: Result<String, String>,
}

/// The mathematical value of a `Reply`.
pub enum ReplyView {
    Failed(SendFailureView),
    Answered(ResponseView),
}

/// The mathematical value of an `Answers`.
pub struct AnswersView {
    pub verdict: Result<Option<Seq<char>>, Seq<char>>,
    pub client: Result<(), Seq<char>>,
    pub reply: ReplyView,
}

/// The mathematical value of a `Record`.
pub struct RecordView {
    pub role: Seq<char>,
    pub query: Seq<char>,
    pub client: Option<ClientSettingsView>,
    pub log: Seq<Seq<char>>,
    pub sent: Option<RequestView>,
    pub result: Result<Seq<char>, Seq<char>>,
}

impl View for Reply {
    type V = ReplyView;

    open spec fn view(&self) -> ReplyView {
        match self {
            Reply::Failed(failure) => ReplyView::Failed(failure@),
            Reply::Answered(response) => ReplyView::Answered(response@),
        }
    }
}

impl View for Answers {
    type V = AnswersView;

    open spec fn view(&self) -> AnswersView {
        AnswersView {
            verdict: verdict_view(self.verdict),
            client: outcome_view(self.client),
            reply: self.reply@,
        }
    }
}

impl View for Record {
    type V = RecordView;

    open spec fn view(&self) -> RecordView {
        RecordView {
            role: self.role@,
            query: self.query@,
            client: match self.client {
                Some(settings) => Some(settings@),
                None => None,
            },
            log: self.log@.map_values(|line: String| line@),
            sent: match self.sent {
                Some(request) => Some(request@),
                None => None,
            },
            result: result_view(self.result),
        }
    }
}

/// The lines of a log with one more, if there is one.
pub open spec fn logged(log: Seq<Seq<char>>, line: Option<Seq<char>>) -> Seq<Seq<char>> {
    match line {
        Some(line) => log.push(line),
        None => log,
    }
}

/// What a job that has been taken up leaves behind, for each of the world's
/// answers.
pub open spec fn run_from(start: PendingView, answers: AnswersView) -> RecordView {
    let blank = RecordView {
        role: start.job.submitted_by,
        query: privilege_query_for(start.job.activity()),
        client: None,
        log: seq![authorization_line(start, answers.verdict)],
        sent: None,
        result: Err(Seq::empty()),
    };
    match authorized(start, answers.verdict) {
        Err(e) => RecordView { result: Err(e), ..blank },
        Ok(cleared) => {
            let ready = RecordView {
                client: Some(client_for(cleared.policy, cleared.job.timeout_seconds)),
                ..blank
            };
            match requested(cleared, answers.client) {
                Err(e) => RecordView { result: Err(e), ..ready },
                Ok(request) => match answers.reply {
                    ReplyView::Failed(failure) => RecordView {
                        log: logged(ready.log, failure_line(sent(cleared), failure)),
                        sent: Some(request),
                        result: Err(failure_message(sent(cleared), failure)),
                        ..ready
                    },
                    ReplyView::Answered(response) => RecordView {
                        log: logged(ready.log, completion_line(sent(cleared), response)),
                        sent: Some(request),
                        result: completed(sent(cleared), response),
                        ..ready
                    },
                },
            }
        },
    }
}

/// What an exchange leaves behind, for each of the world's answers.
pub open spec fn run(policy: HttpPolicy, job: JobView, answers: AnswersView) -> RecordView {
    run_from(pending(policy, job), answers)
}

/// What an HTTP node leaves behind, or the error where its configuration
/// describes no job.
pub open spec fn run_http(
    policy: HttpPolicy,
    config: Result<HttpConfigView, Seq<char>>,
    answers: AnswersView,
) -> Result<RecordView, Seq<char>> {
    match http_job(config) {
        Ok(job) => Ok(run(policy, job, answers)),
        Err(e) => Err(e),
    }
}

/// What a multipart node leaves behind, or the error where its configuration
/// describes no job.
pub open spec fn run_multipart(
    policy: HttpPolicy,
    config: Result<MultipartConfigView, Seq<char>>,
    answers: AnswersView,
) -> Result<RecordView, Seq<char>> {
    match multipart_job(config) {
        Ok(job) => Ok(run(policy, job, answers)),
        Err(e) => Err(e),
    }
}

/// A record, or the error instead of one, as a mathematical value.
pub open spec fn record_view(outcome: Result<Record, String>) -> Result<RecordView, Seq<char>> {
    match outcome {
        Ok(record) => Ok(record@),
        Err(e) => Err(e@),
    }
}

fn log_line(log: &mut Vec<String>, line: Option<String>)
    ensures
        final(log)@.map_values(|line: String| line@) == logged(
            old(log)@.map_values(|line: String| line@),
            match line {
                Some(text) => Some(text@),
                None => None,
            },
        ),
{
    if let Some(text) = line {
        let ghost before = log@;
        log.push(text);
        assert(log@.map_values(|line: String| line@) =~= before.map_values(
            |line: String| line@,
        ).push(text@));
    }
}

fn replay_from(start: Pending, answers: Answers) -> (record: Record)
    ensures
        record@ == run_from(start@, answers@),
{
    let role = start.submitted_by().to_owned();
    let query = start.privilege_query();
    let (line, clearance) = start.authorize(answers.verdict);
    let mut log: Vec<String> = Vec::new();
    let ghost first = line@;
    log.push(line);
    assert(log@.map_values(|line: String| line@) =~= seq![first]);
    let cleared = match clearance {
        Ok(cleared) => cleared,
        Err(e) => return Record { role, query, client: None, log, sent: None, result: Err(e) },
    };
    let client = Some(cleared.client());
    let (request, sent) = match cleared.request(answers.client) {
        Ok(departure) => departure,
        Err(e) => return Record { role, query, client, log, sent: None, result: Err(e) },
    };
    match answers.reply {
        Reply::Failed(failure) => {
            let (line, error) = sent.send_failed(&failure);
            log_line(&mut log, line);
            Record { role, query, client, log, sent: Some(request), result: Err(error) }
        },
        Reply::Answered(response) => {
            let (line, result) = sent.completed(response);
            log_line(&mut log, line);
            Record { role, query, client, log, sent: Some(request), result }
        },
    }
}

/// Takes a job through all steps, with the world's answers as they are given.
/// An answer to a step that is not reached is not looked at.
pub fn replay(policy: HttpPolicy, job: Job, answers: Answers) -> (record: Record)
    ensures
        record@ == run(policy, job@, answers@),
{
    replay_from(Pending::new(policy, job), answers)
}

/// Takes an HTTP node through all steps, from its configuration on.
pub fn replay_http(
    policy: HttpPolicy,
    config: Result<HttpConfig, String>,
    answers: Answers,
) -> (outcome: Result<Record, String>)
    ensures
        record_view(outcome) == run_http(policy, execute_http::config_view(config), answers@),
{
    match execute_http::execute(policy, config) {
        Ok(start) => Ok(replay_from(start, answers)),
        Err(e) => Err(e),
    }
}

/// Takes a multipart node through all steps, from its configuration on.
pub fn replay_multipart(
    policy: HttpPolicy,
    config: Result<MultipartConfig, String>,
    answers: Answers,
) -> (outcome: Result<Record, String>)
    ensures
        record_view(outcome) == run_multipart(
            policy,
            execute_multipart::config_view(config),
            answers@,
        ),
{
    match execute_multipart::execute(policy, config) {
        Ok(start) => Ok(replay_from(start, answers)),
        Err(e) => Err(e),
    }
}

} // verus!
