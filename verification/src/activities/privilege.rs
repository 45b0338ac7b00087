//! Who may make a request: the role that submitted the node must hold EXECUTE
//! on the function that makes such nodes.
use vstd::prelude::*;
use vstd::string::*;

use crate::text::same_text;
#[allow(unused_imports)]
use crate::text::{option_view, outcome_view};
use crate::types::Activity;

verus! {

/// The catalog's answer as a mathematical value: a word, no row, or the words
/// in which the query failed.
pub open spec fn verdict_view(verdict: Result<Option<String>, String>) -> Result<
    Option<Seq<char>>,
    Seq<char>,
> {
    match verdict {
        Ok(word) => Ok(option_view(word)),
        Err(e) => Err(e@),
    }
}

/// The SQL function that makes nodes of an activity.
pub open spec fn guarded_function(activity: Activity) -> Seq<char> {
    match activity {
        Activity::Http => "df.http()"@,
        Activity::Multipart => "df.http_multipart()"@,
    }
}

/// The same with its argument types.
pub open spec fn guarded_signature(activity: Activity) -> Seq<char> {
    match activity {
        Activity::Http => "df.http(text,text,text,jsonb,integer,jsonb)"@,
        Activity::Multipart => "df.http_multipart(text,text,jsonb,jsonb,integer,jsonb)"@,
    }
}

/// The catalog query on the privilege of the role `$1`: whether the guarded
/// function is absent, allowed or denied to it. The signature is looked up
/// rather than cast, the current one first, so that a database with an earlier
/// version of the function answers too.
pub open spec fn privilege_query_for(activity: Activity) -> Seq<char> {
    match activity {
        Activity::Http => "SELECT CASE WHEN p.oid IS NULL THEN 'absent' WHEN pg_catalog.has_function_privilege($1::regrole, p.oid, 'EXECUTE') THEN 'allowed' ELSE 'denied' END FROM (SELECT COALESCE( pg_catalog.to_regprocedure('df.http(text,text,text,jsonb,integer,jsonb)'), pg_catalog.to_regprocedure('df.http(text,text,text,jsonb,integer)') ) AS oid) p"@,
        Activity::Multipart => "SELECT CASE WHEN p.oid IS NULL THEN 'absent' WHEN pg_catalog.has_function_privilege($1::regrole, p.oid, 'EXECUTE') THEN 'allowed' ELSE 'denied' END FROM (SELECT COALESCE( pg_catalog.to_regprocedure('df.http_multipart(text,text,jsonb,jsonb,integer,jsonb)'), pg_catalog.to_regprocedure('df.http_multipart(text,text,jsonb,jsonb,integer)') ) AS oid) p"@,
    }
}

/// What an activity's requests are called.
pub open spec fn request_kind(activity: Activity) -> Seq<char> {
    match activity {
        Activity::Http => "HTTP"@,
        Activity::Multipart => "multipart HTTP"@,
    }
}

/// The answer where the guarded function is not installed.
pub open spec fn absent_message(activity: Activity, role: Seq<char>) -> Seq<char> {
    "Blocked: "@ + guarded_function(activity)
        + " is not installed in this database, so the "@ + request_kind(activity)
        + " privilege of role '"@ + role + "' cannot be verified."@
}

/// The answer to a role without the privilege.
pub open spec fn denied_message(activity: Activity, role: Seq<char>) -> Seq<char> {
    "Blocked: role '"@ + role + "' does not have EXECUTE privilege on "@ + guarded_function(
        activity,
    ) + ". Grant EXECUTE ON FUNCTION "@ + guarded_signature(activity) + " TO "@ + role
        + " to allow "@ + request_kind(activity) + " requests."@
}

/// What the catalog's answer means. Only the word `allowed` permits the
/// request; a failed query, an unknown word and no row do not.
pub open spec fn privilege_answer(
    activity: Activity,
    verdict: Result<Option<Seq<char>>, Seq<char>>,
    role: Seq<char>,
) -> Result<(), Seq<char>> {
    match verdict {
        Err(e) => Err("HTTP privilege check failed for role '"@ + role + "': "@ + e),
        Ok(word) => if word == Some("allowed"@) {
            Ok(())
        } else if word == Some("absent"@) {
            Err(absent_message(activity, role))
        } else {
            Err(denied_message(activity, role))
        },
    }
}

pub(crate) fn query_text(activity: Activity) -> (text: &'static str)
    ensures
        text@ == privilege_query_for(activity),
{
    match activity {
        Activity::Http => "SELECT CASE WHEN p.oid IS NULL THEN 'absent' WHEN pg_catalog.has_function_privilege($1::regrole, p.oid, 'EXECUTE') THEN 'allowed' ELSE 'denied' END FROM (SELECT COALESCE( pg_catalog.to_regprocedure('df.http(text,text,text,jsonb,integer,jsonb)'), pg_catalog.to_regprocedure('df.http(text,text,text,jsonb,integer)') ) AS oid) p",
        Activity::Multipart => "SELECT CASE WHEN p.oid IS NULL THEN 'absent' WHEN pg_catalog.has_function_privilege($1::regrole, p.oid, 'EXECUTE') THEN 'allowed' ELSE 'denied' END FROM (SELECT COALESCE( pg_catalog.to_regprocedure('df.http_multipart(text,text,jsonb,jsonb,integer,jsonb)'), pg_catalog.to_regprocedure('df.http_multipart(text,text,jsonb,jsonb,integer)') ) AS oid) p",
    }
}

fn function_text(activity: Activity) -> (text: &'static str)
    ensures
        text@ == guarded_function(activity),
{
    match activity {
        Activity::Http => "df.http()",
        Activity::Multipart => "df.http_multipart()",
    }
}

fn signature_text(activity: Activity) -> (text: &'static str)
    ensures
        text@ == guarded_signature(activity),
{
    match activity {
        Activity::Http => "df.http(text,text,text,jsonb,integer,jsonb)",
        Activity::Multipart => "df.http_multipart(text,text,jsonb,jsonb,integer,jsonb)",
    }
}

fn kind_text(activity: Activity) -> (text: &'static str)
    ensures
        text@ == request_kind(activity),
{
    match activity {
        Activity::Http => "HTTP",
        Activity::Multipart => "multipart HTTP",
    }
}

fn refuse_absent(activity: Activity, role: &str) -> (message: String)
    ensures
        message@ == absent_message(activity, role@),
{
    let mut message = "Blocked: ".to_owned();
    message.append(function_text(activity));
    message.append(" is not installed in this database, so the ");
    message.append(kind_text(activity));
    message.append(" privilege of role '");
    message.append(role);
    message.append("' cannot be verified.");
    message
}

fn refuse_denied(activity: Activity, role: &str) -> (message: String)
    ensures
        message@ == denied_message(activity, role@),
{
    let mut message = "Blocked: role '".to_owned();
    message.append(role);
    message.append("' does not have EXECUTE privilege on ");
    message.append(function_text(activity));
    message.append(". Grant EXECUTE ON FUNCTION ");
    message.append(signature_text(activity));
    message.append(" TO ");
    message.append(role);
    message.append(" to allow ");
    message.append(kind_text(activity));
    message.append(" requests.");
    message
}

/// Reads the catalog's answer for a role.
pub(crate) fn check_privilege(
    activity: Activity,
    verdict: Result<Option<String>, String>,
    submitted_by: &str,
) -> (answer: Result<(), String>)
    ensures
        outcome_view(answer) == privilege_answer(activity, verdict_view(verdict), submitted_by@),
{
    match verdict {
        Err(e) => {
            let mut message = "HTTP privilege check failed for role '".to_owned();
            message.append(submitted_by);
            message.append("': ");
            message.append(e.as_str());
            Err(message)
        },
        Ok(Some(word)) => if same_text(word.as_str(), "allowed") {
            Ok(())
        } else if same_text(word.as_str(), "absent") {
            Err(refuse_absent(activity, submitted_by))
        } else {
            Err(refuse_denied(activity, submitted_by))
        },
        Ok(None) => Err(refuse_denied(activity, submitted_by)),
    }
}

} // verus!
