//! The HTTP activity: one request with an optional text body.
use vstd::prelude::*;
use vstd::string::*;

use crate::activities::exchange::Pending;
#[allow(unused_imports)]
use crate::activities::exchange::{pending, PendingView};
use crate::activities::privilege::check_privilege;
#[allow(unused_imports)]
use crate::activities::privilege::{privilege_answer, verdict_view};
use crate::ssrf::HttpPolicy;
#[allow(unused_imports)]
use crate::text::outcome_view;
#[allow(unused_imports)]
use crate::types::{Activity, HttpConfig, HttpConfigView, Job, JobView, Payload, PayloadView};

verus! {

/// The name under which the activity is registered and scheduled.
pub const NAME: &'static str = "pg_durable::activity::execute-http";

/// The version that requests are signed with.
pub const VERSION: &'static str = "0.2.8";

/// Reads the catalog's answer on EXECUTE on `df.http()`. A node that was
/// inserted without calling `df.http()` is caught here.
pub fn check_http_privilege(verdict: Result<Option<String>, String>, submitted_by: &str) -> (answer:
    Result<(), String>)
    ensures
        outcome_view(answer) == privilege_answer(
            Activity::Http,
            verdict_view(verdict),
            submitted_by@,
        ),
{
    check_privilege(Activity::Http, verdict, submitted_by)
}

/// How the client for a request is set up.
pub struct ClientSettings {
    pub timeout_seconds: u64,
    /// Sent unless the node has a `User-Agent` of its own.
    pub user_agent: String,
    pub follow_redirects: bool,
    /// The proxies of the system and the environment are used.
    pub use_system_proxy: bool,
    /// The resolver refuses blocked addresses.
    pub screen_addresses: bool,
}

/// The mathematical value of a `ClientSettings`.
pub struct ClientSettingsView {
    pub timeout_seconds: u64,
    pub user_agent: Seq<char>,
    pub follow_redirects: bool,
    pub use_system_proxy: bool,
    pub screen_addresses: bool,
}

impl View for ClientSettings {
    type V = ClientSettingsView;

    open spec fn view(&self) -> ClientSettingsView {
        ClientSettingsView {
            timeout_seconds: self.timeout_seconds,
            user_agent: self.user_agent@,
            follow_redirects: self.follow_redirects,
            use_system_proxy: self.use_system_proxy,
            screen_addresses: self.screen_addresses,
        }
    }
}

/// The client of a build. Redirects are never followed: their target would
/// escape the checks. A restricted build screens the addresses that names
/// resolve to, and bypasses proxies, which would resolve names themselves.
pub open spec fn client_for(policy: HttpPolicy, timeout_seconds: u64) -> ClientSettingsView {
    ClientSettingsView {
        timeout_seconds,
        user_agent: "pg_durable/"@ + VERSION@,
        follow_redirects: false,
        use_system_proxy: !policy.restricted(),
        screen_addresses: policy.restricted(),
    }
}

/// Sets up the client for a request of either activity.
pub fn client_settings(policy: HttpPolicy, timeout_seconds: u64) -> (settings: ClientSettings)
    ensures
        settings@ == client_for(policy, timeout_seconds),
{
    let restricted = policy != HttpPolicy::AllowAll;
    let mut user_agent = "pg_durable/".to_owned();
    user_agent.append(VERSION);
    ClientSettings {
        timeout_seconds,
        user_agent,
        follow_redirects: false,
        use_system_proxy: !restricted,
        screen_addresses: restricted,
    }
}

/// A read configuration as a mathematical value.
pub open spec fn config_view(config: Result<HttpConfig, String>) -> Result<
    HttpConfigView,
    Seq<char>,
> {
    match config {
        Ok(config) => Ok(config@),
        Err(e) => Err(e@),
    }
}

/// A job, or the error instead of one, as a mathematical value.
pub open spec fn taken_view(taken: Result<Pending, String>) -> Result<PendingView, Seq<char>> {
    match taken {
        Ok(pending) => Ok(pending@),
        Err(e) => Err(e@),
    }
}

/// The job that a configuration describes.
pub open spec fn http_job(config: Result<HttpConfigView, Seq<char>>) -> Result<JobView, Seq<char>> {
    match config {
        Err(e) => Err("Invalid HTTP config: "@ + e),
        Ok(config) => match config.submitted_by {
            None => Err(
                "Blocked: HTTP node has no submitted_by \u{2014} cannot verify privilege"@,
            ),
            Some(role) => Ok(
                JobView {
                    url: config.url,
                    method: config.method,
                    headers: config.headers,
                    timeout_seconds: config.timeout_seconds,
                    submitted_by: role,
                    payload: PayloadView::Body(config.body),
                },
            ),
        },
    }
}

/// Takes up the node that a configuration describes, or says why there is none.
pub fn execute(policy: HttpPolicy, config: Result<HttpConfig, String>) -> (taken: Result<
    Pending,
    String,
>)
    ensures
        taken_view(taken) == (match http_job(config_view(config)) {
            Ok(job) => Ok(pending(policy, job)),
            Err(e) => Err(e),
        }),
{
    match config {
        Err(e) => {
            let mut message = "Invalid HTTP config: ".to_owned();
            message.append(e.as_str());
            Err(message)
        },
        Ok(config) => match config.submitted_by {
            None => Err(
                "Blocked: HTTP node has no submitted_by \u{2014} cannot verify privilege".to_owned(),
            ),
            Some(submitted_by) => {
                let job = Job {
                    url: config.url,
                    method: config.method,
                    headers: config.headers,
                    timeout_seconds: config.timeout_seconds,
                    submitted_by,
                    payload: Payload::Body(config.body),
                };
                Ok(Pending::new(policy, job))
            },
        },
    }
}

} // verus!
