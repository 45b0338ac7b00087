use pg_durable::activities::exchange::{Response, SendFailure};
use pg_durable::activities::http_response::{response_body, RawBody};
use pg_durable::activities::replay::{replay, Answers, Record, Reply};
use pg_durable::ssrf::HttpPolicy;
use pg_durable::types::{HeaderEntry, Headers, Job, MultipartPart, Payload};

const URL: &str = "https://acct.blob.core.windows.net/c?sig=abc";

fn job(url: &str) -> Job {
    Job {
        url: url.to_string(),
        method: "POST".to_string(),
        headers: None,
        timeout_seconds: 30,
        submitted_by: "app_role".to_string(),
        payload: Payload::Body(None),
    }
}

fn form_job(data: &str, header: &str) -> Job {
    Job {
        headers: Some(Headers::Entries(vec![HeaderEntry {
            name: "Authorization".to_string(),
            value: Some(header.to_string()),
        }])),
        payload: Payload::Parts(vec![MultipartPart {
            name: "p".to_string(),
            data_b64: data.to_string(),
            content_type: None,
            filename: None,
        }]),
        ..job(URL)
    }
}

fn answered(verdict: &str, status: u16) -> Answers {
    Answers {
        verdict: Ok(Some(verdict.to_string())),
        client: Ok(()),
        reply: Reply::Answered(Response {
            status,
            headers: vec![],
            body: Ok(response_body(RawBody::Text("b".to_string()), "b".to_string())),
            duration_ms: 5,
        }),
    }
}

fn failed(text: &str) -> Answers {
    Answers {
        reply: Reply::Failed(SendFailure {
            text: text.to_string(),
            causes: vec![],
            status: None,
            timeout: false,
            connect: true,
        }),
        ..answered("allowed", 200)
    }
}

fn same_outside(one: &Record, other: &Record) -> bool {
    one.log == other.log && one.result == other.result
}

#[test]
fn nothing_is_sent_unchecked() {
    let azure = HttpPolicy::AzureDomains;
    assert!(replay(azure, job(URL), answered("denied", 200)).sent.is_none());
    assert!(replay(azure, job("no url"), answered("allowed", 200)).sent.is_none());
    assert!(replay(azure, job("http://a.azurewebsites.net/"), answered("allowed", 200)).sent.is_none());
    assert!(replay(azure, job("https://10.0.0.1/"), answered("allowed", 200)).sent.is_none());
    let record = replay(azure, job(URL), answered("allowed", 200));
    match record.sent {
        Some(request) => assert_eq!(request.href, URL),
        None => panic!("must be sent"),
    }
    assert!(record.result.is_ok());
    assert_eq!(record.log.len(), 2);
}

#[test]
fn a_client_that_cannot_be_set_up_stops_the_exchange() {
    let answers = Answers { client: Err("no roots".to_string()), ..answered("allowed", 200) };
    let record = replay(HttpPolicy::AzureDomains, job(URL), answers);
    assert!(record.sent.is_none());
    assert_eq!(record.result, Err("Failed to create HTTP client: no roots".to_string()));
    assert_eq!(record.log.len(), 1);
}

#[test]
fn disabled_builds_send_nothing() {
    let record = replay(HttpPolicy::Disabled, job(URL), answered("allowed", 200));
    assert!(record.sent.is_none());
    assert!(record.result.is_err());
    assert_eq!(record.log.len(), 1);
}

#[test]
fn refused_roles_learn_nothing_of_the_target() {
    let one = replay(HttpPolicy::AzureDomains, job(URL), answered("denied", 200));
    let other = replay(HttpPolicy::AllowAll, job("file:///x"), answered("denied", 200));
    assert_eq!(one.result, other.result);
    assert!(one.result.is_err());
}

#[test]
fn url_secrets_stay() {
    let azure = HttpPolicy::AzureDomains;
    let other = "https://u:p@acct.blob.core.windows.net/c?sig=xyz#f";
    let masked = "https://v@acct.blob.core.windows.net/c?sig=123#g";
    for status in [200, 503] {
        let a = replay(azure, job(other), answered("allowed", status));
        let b = replay(azure, job(masked), answered("allowed", status));
        assert!(same_outside(&a, &b));
    }
    let a = replay(azure, job(other), failed(&format!("error sending request for url ({other})")));
    let b = replay(azure, job(masked), failed(&format!("error sending request for url ({masked})")));
    assert!(same_outside(&a, &b));
}

#[test]
fn headers_and_bodies_are_unseen() {
    let azure = HttpPolicy::AzureDomains;
    let mut with = job(URL);
    with.headers = Some(Headers::Entries(vec![HeaderEntry {
        name: "Authorization".to_string(),
        value: Some("Bearer t".to_string()),
    }]));
    with.payload = Payload::Body(Some("secret".to_string()));
    let a = replay(azure, with, answered("allowed", 500));
    let b = replay(azure, job(URL), answered("allowed", 500));
    assert!(same_outside(&a, &b));
}

#[test]
fn forms_are_unseen() {
    let azure = HttpPolicy::AzureDomains;
    let a = replay(azure, form_job("aGVsbG8=", "x"), answered("allowed", 500));
    let b = replay(azure, form_job("", "y"), answered("allowed", 500));
    assert!(same_outside(&a, &b));
    assert_eq!(
        a.log[0],
        "HTTP_MULTIPART POST https://acct.blob.core.windows.net/c?sig=<redacted> (1 parts) submitted_by=app_role"
    );
    let c = replay(azure, form_job("!!!!", "x"), answered("allowed", 200));
    let d = replay(azure, form_job("????", "x"), answered("allowed", 200));
    assert_eq!(c.log, d.log);
    assert!(c.sent.is_none());
}

#[test]
fn server_failures_fail_and_nothing_else_does() {
    let azure = HttpPolicy::AzureDomains;
    for status in [200, 301, 404, 499, 600] {
        assert!(replay(azure, job(URL), answered("allowed", status)).result.is_ok());
    }
    for status in [500, 599] {
        assert!(replay(azure, job(URL), answered("allowed", status)).result.is_err());
    }
}

#[test]
fn secrets_that_end_in_punctuation_stay() {
    let azure = HttpPolicy::AzureDomains;
    let error = |secret: &str| {
        let url = format!("https://acct.blob.core.windows.net/c?sig={secret}");
        let text = format!("error sending request for url ({url})");
        replay(azure, job(&url), failed(&text))
    };
    let plain = error("a");
    assert_eq!(
        plain.result,
        Err("HTTP connection failed: https://acct.blob.core.windows.net/c?sig=<redacted> - error sending request for url (https://acct.blob.core.windows.net/c?sig=<redacted>)".to_string())
    );
    for secret in ["a.", "a)", ";;", ".", "a).", "]:,"] {
        assert!(same_outside(&error(secret), &plain));
    }
}

#[test]
fn user_information_that_the_client_took_out_stays() {
    let azure = HttpPolicy::AzureDomains;
    let error = |user: &str, secret: &str| {
        let host = format!("acct.blob.core.windows.net/c?sig={secret}");
        let text = format!("error sending request for url (https://{host})");
        replay(azure, job(&format!("https://{user}@{host}")), failed(&text))
    };
    assert!(same_outside(&error("u:p", "a."), &error("v", "b)")));
}
