//! The multipart activity: one request with a `multipart/form-data` body. It
//! differs from the HTTP activity in the body and in the function whose
//! privilege is checked.
use vstd::prelude::*;
use vstd::string::*;

use crate::activities::exchange::Pending;
#[allow(unused_imports)]
use crate::activities::exchange::pending;
#[allow(unused_imports)]
use crate::activities::execute_http::taken_view;
use crate::activities::privilege::check_privilege;
#[allow(unused_imports)]
use crate::activities::privilege::{privilege_answer, verdict_view};
use crate::ssrf::HttpPolicy;
#[allow(unused_imports)]
use crate::text::outcome_view;
#[allow(unused_imports)]
use crate::types::{
    Activity, Job, JobView, MultipartConfig, MultipartConfigView, Payload, PayloadView,
};

verus! {

/// The name under which the activity is registered and scheduled.
pub const NAME: &'static str = "pg_durable::activity::execute-multipart";

/// Reads the catalog's answer on EXECUTE on `df.http_multipart()`. A node that
/// was inserted without calling `df.http_multipart()` is caught here.
pub fn check_multipart_privilege(
    verdict: Result<Option<String>, String>,
    submitted_by: &str,
) -> (answer: Result<(), String>)
    ensures
        outcome_view(answer) == privilege_answer(
            Activity::Multipart,
            verdict_view(verdict),
            submitted_by@,
        ),
{
    check_privilege(Activity::Multipart, verdict, submitted_by)
}

/// A read configuration as a mathematical value.
pub open spec fn config_view(config: Result<MultipartConfig, String>) -> Result<
    MultipartConfigView,
    Seq<char>,
> {
    match config {
        Ok(config) => Ok(config@),
        Err(e) => Err(e@),
    }
}

/// The job that a configuration describes.
pub open spec fn multipart_job(config: Result<MultipartConfigView, Seq<char>>) -> Result<
    JobView,
    Seq<char>,
> {
    match config {
        Err(e) => Err("Invalid multipart HTTP config: "@ + e),
        Ok(config) => match config.submitted_by {
            None => Err(
                "Blocked: HTTP_MULTIPART node has no submitted_by \u{2014} cannot verify privilege"@,
            ),
            Some(role) => Ok(
                JobView {
                    url: config.url,
                    method: config.method,
                    headers: config.headers,
                    timeout_seconds: config.timeout_seconds,
                    submitted_by: role,
                    payload: PayloadView::Parts(config.parts),
                },
            ),
        },
    }
}

/// Takes up the node that a configuration describes, or says why there is none.
pub fn execute(policy: HttpPolicy, config: Result<MultipartConfig, String>) -> (taken: Result<
    Pending,
    String,
>)
    ensures
        taken_view(taken) == (match multipart_job(config_view(config)) {
            Ok(job) => Ok(pending(policy, job)),
            Err(e) => Err(e),
        }),
{
    match config {
        Err(e) => {
            let mut message = "Invalid multipart HTTP config: ".to_owned();
            message.append(e.as_str());
            Err(message)
        },
        Ok(config) => match config.submitted_by {
            None => Err(
                "Blocked: HTTP_MULTIPART node has no submitted_by \u{2014} cannot verify privilege".to_owned(),
            ),
            Some(submitted_by) => {
                let job = Job {
                    url: config.url,
                    method: config.method,
                    headers: config.headers,
                    timeout_seconds: config.timeout_seconds,
                    submitted_by,
                    payload: Payload::Parts(config.parts),
                };
                Ok(Pending::new(policy, job))
            },
        },
    }
}

} // verus!
