use pg_durable::activities::exchange::{Cleared, Pending, Response, SendFailure, Sent};
use pg_durable::activities::execute_http::{self, check_http_privilege, client_settings};
use pg_durable::activities::execute_multipart::{self, check_multipart_privilege};
use pg_durable::activities::http_response::{
    build_envelope, envelope, response_body, JsonField, RawBody, ResponseBody,
};
use pg_durable::activities::request::{check_method, request_headers};
use pg_durable::ssrf::HttpPolicy;
use pg_durable::types::{
    Activity, HeaderEntry, Headers, HttpConfig, MultipartConfig, MultipartPart, Request,
    RequestBody,
};

const SAS_URL: &str = "https://acct.blob.core.windows.net/c/b?sig=abc";
const SAFE_URL: &str = "https://acct.blob.core.windows.net/c/b?sig=<redacted>";

fn http_config(url: &str, method: &str) -> HttpConfig {
    HttpConfig {
        url: url.to_string(),
        method: method.to_string(),
        body: None,
        headers: None,
        timeout_seconds: 30,
        submitted_by: Some("app_role".to_string()),
    }
}

fn multipart_config(url: &str, method: &str, data: &str) -> MultipartConfig {
    let part = |name: &str| MultipartPart {
        name: name.to_string(),
        data_b64: data.to_string(),
        content_type: None,
        filename: None,
    };
    MultipartConfig {
        url: url.to_string(),
        method: method.to_string(),
        parts: vec![part("a"), part("b")],
        headers: None,
        timeout_seconds: 30,
        submitted_by: Some("app_role".to_string()),
    }
}

fn taken(outcome: Result<Pending, String>) -> Pending {
    match outcome {
        Ok(pending) => pending,
        Err(e) => panic!("{e}"),
    }
}

fn refused<T>(outcome: Result<T, String>) -> String {
    match outcome {
        Ok(_) => panic!("must be refused"),
        Err(e) => e,
    }
}

fn allowed() -> Result<Option<String>, String> {
    Ok(Some("allowed".to_string()))
}

fn cleared(policy: HttpPolicy, config: HttpConfig) -> Cleared {
    match taken(execute_http::execute(policy, Ok(config))).authorize(allowed()).1 {
        Ok(cleared) => cleared,
        Err(e) => panic!("{e}"),
    }
}

fn departed(cleared: Cleared) -> (Request, Sent) {
    match cleared.request(Ok(())) {
        Ok(departure) => departure,
        Err(e) => panic!("{e}"),
    }
}

fn on_its_way() -> Sent {
    departed(cleared(HttpPolicy::AzureDomains, http_config(SAS_URL, "GET"))).1
}

fn multipart_on_its_way() -> Sent {
    let pending = taken(execute_multipart::execute(
        HttpPolicy::AzureDomains,
        Ok(multipart_config(SAS_URL, "POST", "aGVsbG8=")),
    ));
    match pending.authorize(allowed()).1 {
        Ok(cleared) => departed(cleared).1,
        Err(e) => panic!("{e}"),
    }
}

#[test]
fn activity_names() {
    assert_eq!(execute_http::NAME, "pg_durable::activity::execute-http");
    assert_eq!(execute_multipart::NAME, "pg_durable::activity::execute-multipart");
}

#[test]
fn unreadable_configurations_are_refused() {
    let error = || "expected value at line 1 column 1".to_string();
    assert_eq!(
        refused(execute_http::execute(HttpPolicy::AzureDomains, Err(error()))),
        "Invalid HTTP config: expected value at line 1 column 1"
    );
    assert_eq!(
        refused(execute_multipart::execute(HttpPolicy::AzureDomains, Err(error()))),
        "Invalid multipart HTTP config: expected value at line 1 column 1"
    );
}

#[test]
fn nodes_without_a_role_are_refused() {
    let mut http = http_config(SAS_URL, "GET");
    http.submitted_by = None;
    assert_eq!(
        refused(execute_http::execute(HttpPolicy::AllowAll, Ok(http))),
        "Blocked: HTTP node has no submitted_by \u{2014} cannot verify privilege"
    );
    let mut multipart = multipart_config(SAS_URL, "POST", "");
    multipart.submitted_by = None;
    assert_eq!(
        refused(execute_multipart::execute(HttpPolicy::AllowAll, Ok(multipart))),
        "Blocked: HTTP_MULTIPART node has no submitted_by \u{2014} cannot verify privilege"
    );
}

#[test]
fn only_the_word_allowed_permits() {
    assert_eq!(check_http_privilege(allowed(), "r"), Ok(()));
    assert_eq!(check_multipart_privilege(allowed(), "r"), Ok(()));
    let denied = "Blocked: role 'r' does not have EXECUTE privilege on df.http(). Grant EXECUTE ON FUNCTION df.http(text,text,text,jsonb,integer,jsonb) TO r to allow HTTP requests.";
    for verdict in [Some("denied"), Some("ALLOWED"), Some(""), None] {
        assert_eq!(
            check_http_privilege(Ok(verdict.map(str::to_string)), "r"),
            Err(denied.to_string())
        );
    }
    assert_eq!(
        check_http_privilege(Ok(Some("absent".to_string())), "r"),
        Err("Blocked: df.http() is not installed in this database, so the HTTP privilege of role 'r' cannot be verified.".to_string())
    );
    assert_eq!(
        check_http_privilege(Err("pool timed out".to_string()), "r"),
        Err("HTTP privilege check failed for role 'r': pool timed out".to_string())
    );
    assert_eq!(
        check_multipart_privilege(Ok(None), "r"),
        Err("Blocked: role 'r' does not have EXECUTE privilege on df.http_multipart(). Grant EXECUTE ON FUNCTION df.http_multipart(text,text,jsonb,jsonb,integer,jsonb) TO r to allow multipart HTTP requests.".to_string())
    );
    assert_eq!(
        check_multipart_privilege(Ok(Some("absent".to_string())), "r"),
        Err("Blocked: df.http_multipart() is not installed in this database, so the multipart HTTP privilege of role 'r' cannot be verified.".to_string())
    );
    assert_eq!(
        check_multipart_privilege(Err("pool timed out".to_string()), "r"),
        Err("HTTP privilege check failed for role 'r': pool timed out".to_string())
    );
}

#[test]
fn the_first_failing_check_answers() {
    let run = |url: &str, verdict: Result<Option<String>, String>| {
        let pending = taken(execute_http::execute(
            HttpPolicy::AzureDomains,
            Ok(http_config(url, "GET")),
        ));
        assert_eq!(pending.submitted_by(), "app_role");
        let (line, outcome) = pending.authorize(verdict);
        (line, refused(outcome))
    };

    let (line, error) = run("not a url", Ok(Some("denied".to_string())));
    assert_eq!(line, "HTTP BLOCKED (privilege) url=<redacted> submitted_by=app_role");
    assert!(error.starts_with("Blocked: role 'app_role' does not have EXECUTE"));

    let (line, error) = run("sig=abc not a url", allowed());
    assert_eq!(line, "HTTP BLOCKED (malformed) url=<redacted> submitted_by=app_role");
    assert_eq!(error, "Blocked: malformed URL: relative URL without a base");

    let (line, error) = run("http://evil.example/?sig=abc", allowed());
    assert_eq!(
        line,
        "HTTP BLOCKED (scheme) url=http://evil.example/?sig=<redacted> submitted_by=app_role"
    );
    assert!(error.starts_with("Blocked: plaintext HTTP"));

    let (line, error) = run("https://evil.example/?sig=abc", allowed());
    assert_eq!(
        line,
        "HTTP BLOCKED (allowlist) url=https://evil.example/?sig=<redacted> submitted_by=app_role"
    );
    assert!(error.starts_with("Blocked: 'evil.example' is not in the allowed"));
}

#[test]
fn multipart_blocks_are_logged_under_their_own_tag() {
    let pending = taken(execute_multipart::execute(
        HttpPolicy::Disabled,
        Ok(multipart_config(SAS_URL, "POST", "")),
    ));
    let (line, outcome) = pending.authorize(allowed());
    assert_eq!(
        line,
        format!("HTTP_MULTIPART BLOCKED (allowlist) url={SAFE_URL} submitted_by=app_role")
    );
    assert!(refused(outcome).starts_with("Blocked: outbound HTTP requests are disabled."));
}

#[test]
fn attempts_are_logged_redacted() {
    let pending = taken(execute_http::execute(
        HttpPolicy::AzureDomains,
        Ok(http_config(SAS_URL, "GET")),
    ));
    let (line, outcome) = pending.authorize(allowed());
    assert_eq!(line, format!("HTTP GET {SAFE_URL} submitted_by=app_role"));
    assert!(outcome.is_ok());

    let pending = taken(execute_multipart::execute(
        HttpPolicy::AzureDomains,
        Ok(multipart_config(SAS_URL, "PUT", "")),
    ));
    let (line, outcome) = pending.authorize(allowed());
    assert_eq!(
        line,
        format!("HTTP_MULTIPART PUT {SAFE_URL} (2 parts) submitted_by=app_role")
    );
    assert!(outcome.is_ok());
}

#[test]
fn client_settings_by_build() {
    for policy in [HttpPolicy::Disabled, HttpPolicy::AzureDomains, HttpPolicy::TestDomains] {
        let settings = client_settings(policy, 7);
        assert_eq!(settings.timeout_seconds, 7);
        assert_eq!(settings.user_agent, "pg_durable/0.2.8");
        assert!(!settings.follow_redirects);
        assert!(!settings.use_system_proxy);
        assert!(settings.screen_addresses);
    }
    let open = client_settings(HttpPolicy::AllowAll, 7);
    assert!(!open.follow_redirects);
    assert!(open.use_system_proxy);
    assert!(!open.screen_addresses);
    let own = cleared(HttpPolicy::AzureDomains, http_config(SAS_URL, "GET")).client();
    assert_eq!(own.timeout_seconds, 30);
    assert!(own.screen_addresses);
}

#[test]
fn what_goes_out_is_what_was_judged() {
    let mut config = http_config("https://ACCT.azurewebsites.net:443/a/../b?x=1", "POST");
    config.body = Some("{\"k\":1}".to_string());
    config.headers = Some(Headers::Entries(vec![
        HeaderEntry { name: "X-One".to_string(), value: Some("1".to_string()) },
        HeaderEntry { name: "X-Null".to_string(), value: None },
        HeaderEntry { name: "Content-Type".to_string(), value: Some("application/json".to_string()) },
    ]));
    let (request, _) = departed(cleared(HttpPolicy::AzureDomains, config));
    assert_eq!(request.method, "POST");
    assert_eq!(request.href, "https://acct.azurewebsites.net/b?x=1");
    assert_eq!(
        request.headers,
        vec![
            ("X-One".to_string(), "1".to_string()),
            ("Content-Type".to_string(), "application/json".to_string()),
        ]
    );
    assert!(matches!(request.body, RequestBody::Text(text) if text == "{\"k\":1}"));
}

#[test]
fn a_body_goes_with_any_method() {
    let mut config = http_config(SAS_URL, "GET");
    config.body = Some("x".to_string());
    let (request, _) = departed(cleared(HttpPolicy::AzureDomains, config));
    assert!(matches!(request.body, RequestBody::Text(text) if text == "x"));
}

#[test]
fn forms_drop_the_callers_content_type() {
    let headers = Some(Headers::Entries(vec![
        HeaderEntry { name: "CoNtEnT-TyPe".to_string(), value: Some("text/plain".to_string()) },
        HeaderEntry { name: "Authorization".to_string(), value: Some("Bearer t".to_string()) },
        HeaderEntry { name: "content-types".to_string(), value: Some("x".to_string()) },
    ]));
    assert_eq!(
        request_headers(Activity::Multipart, &headers),
        vec![
            ("Authorization".to_string(), "Bearer t".to_string()),
            ("content-types".to_string(), "x".to_string()),
        ]
    );
    assert_eq!(request_headers(Activity::Http, &headers).len(), 3);
    assert!(request_headers(Activity::Http, &Some(Headers::NotAnObject)).is_empty());
    assert!(request_headers(Activity::Http, &None).is_empty());
}

#[test]
fn methods_by_activity() {
    for method in ["GET", "POST", "PUT", "DELETE", "PATCH"] {
        assert_eq!(check_method(Activity::Http, method), Ok(()));
    }
    for method in ["POST", "PUT", "PATCH"] {
        assert_eq!(check_method(Activity::Multipart, method), Ok(()));
    }
    assert_eq!(
        check_method(Activity::Http, "get"),
        Err("Unsupported HTTP method: get".to_string())
    );
    assert_eq!(
        check_method(Activity::Multipart, "GET"),
        Err("Unsupported HTTP method for multipart: GET".to_string())
    );
}

#[test]
fn departures_fail_in_order() {
    let client = || cleared(HttpPolicy::AzureDomains, http_config(SAS_URL, "HEAD"));
    assert_eq!(
        refused(client().request(Err("no TLS backend".to_string()))),
        "Failed to create HTTP client: no TLS backend"
    );
    assert_eq!(refused(client().request(Ok(()))), "Unsupported HTTP method: HEAD");

    let pending = taken(execute_multipart::execute(
        HttpPolicy::AzureDomains,
        Ok(multipart_config(SAS_URL, "POST", "!!!!")),
    ));
    match pending.authorize(allowed()).1 {
        Ok(cleared) => assert_eq!(
            refused(cleared.request(Ok(()))),
            "Invalid base64 in part 'a': Invalid symbol 33, offset 0."
        ),
        Err(e) => panic!("{e}"),
    }
}

fn failure(text: &str) -> SendFailure {
    SendFailure {
        text: text.to_string(),
        causes: vec![],
        status: None,
        timeout: false,
        connect: false,
    }
}

#[test]
fn failures_are_reported_without_secrets() {
    let sent = on_its_way();
    let text = format!("error sending request for url ({SAS_URL})");
    let shown = format!("error sending request for url ({SAFE_URL})");

    let (line, error) = sent.send_failed(&failure(&text));
    assert_eq!(line, None);
    assert_eq!(error, format!("HTTP request failed: {SAFE_URL} - {shown}"));

    let (_, error) = sent.send_failed(&SendFailure { connect: true, ..failure(&text) });
    assert_eq!(error, format!("HTTP connection failed: {SAFE_URL} - {shown}"));

    let (_, error) = sent.send_failed(&SendFailure { timeout: true, connect: true, ..failure(&text) });
    assert_eq!(error, format!("HTTP timeout after 30s: {SAFE_URL}"));

    let (_, error) = sent.send_failed(&SendFailure { status: Some(421), ..failure(&text) });
    assert_eq!(error, format!("HTTP request failed (HTTP 421): {SAFE_URL} - {shown}"));

    let (_, error) = multipart_on_its_way().send_failed(&failure(&text));
    assert_eq!(error, format!("HTTP request failed: {SAFE_URL} - {shown}"));
}

#[test]
fn refused_addresses_are_reported() {
    let message = "Blocked: the resolved IP address for 'acct.blob.core.windows.net' is in a restricted range. df.http() cannot access private or internal network addresses.";
    let sent = on_its_way();
    let line = format!("HTTP BLOCKED (ip) url={SAFE_URL} submitted_by=app_role");

    assert_eq!(
        sent.send_failed(&SendFailure { timeout: true, ..failure(message) }),
        (Some(line.clone()), message.to_string())
    );
    let causes = vec!["client error (Connect)".to_string(), message.to_string()];
    let text = format!("error sending request for url ({SAS_URL})");
    assert_eq!(
        sent.send_failed(&SendFailure { causes, connect: true, ..failure(&text) }),
        (Some(line), message.to_string())
    );
    assert_eq!(
        multipart_on_its_way().send_failed(&failure(&format!("{SAS_URL} {message}"))),
        (
            Some(format!("HTTP_MULTIPART BLOCKED (ip) url={SAFE_URL} submitted_by=app_role")),
            format!("{SAFE_URL} {message}")
        )
    );
}

fn answer(status: u16, body: Result<ResponseBody, String>) -> Response {
    Response {
        status,
        headers: vec![("content-type".to_string(), "text/plain".to_string())],
        body,
        duration_ms: 12,
    }
}

fn text_body() -> Result<ResponseBody, String> {
    Ok(response_body(RawBody::Text("hi \"you\"".to_string()), "hi".to_string()))
}

#[test]
fn responses_are_returned_in_the_envelope() {
    let (line, result) = on_its_way().completed(answer(200, text_body()));
    assert_eq!(
        line.as_deref(),
        Some("HTTP GET completed: status=200, ok=true, encoding=text, duration=12ms")
    );
    let envelope: serde_json::Value = serde_json::from_str(&result.unwrap()).unwrap();
    let object = envelope.as_object().unwrap();
    assert_eq!(object.len(), 6);
    assert_eq!(object["status"], 200);
    assert_eq!(object["body"], "hi \"you\"");
    assert_eq!(object["encoding"], "text");
    assert_eq!(object["headers"]["content-type"], "text/plain");
    assert_eq!(object["ok"], true);
    assert_eq!(object["duration_ms"], 12);
}

#[test]
fn client_errors_are_results() {
    for status in [199, 300, 304, 404, 499, 600] {
        let (line, result) = on_its_way().completed(answer(status, text_body()));
        assert_eq!(
            line,
            Some(format!(
                "HTTP GET completed: status={status}, ok=false, encoding=text, duration=12ms"
            ))
        );
        let envelope: serde_json::Value = serde_json::from_str(&result.unwrap()).unwrap();
        assert_eq!(envelope["ok"], false);
        assert_eq!(envelope["status"], status);
    }
}

#[test]
fn server_errors_fail_the_activity() {
    for status in [500, 503, 599] {
        let (line, result) = on_its_way().completed(answer(status, text_body()));
        assert!(line.is_some());
        assert_eq!(result, Err(format!("HTTP GET {SAFE_URL} returned {status}: hi")));
    }
    let (_, result) = multipart_on_its_way().completed(answer(502, text_body()));
    assert_eq!(result, Err(format!("HTTP_MULTIPART POST {SAFE_URL} returned 502: hi")));
}

#[test]
fn unreadable_bodies_fail_without_a_line() {
    assert_eq!(
        on_its_way().completed(answer(200, Err("connection reset".to_string()))),
        (None, Err("connection reset".to_string()))
    );
}

#[test]
fn both_activities_return_the_same_envelope() {
    let (_, one) = on_its_way().completed(answer(201, text_body()));
    let (_, other) = multipart_on_its_way().completed(answer(201, text_body()));
    assert_eq!(one, other);
    assert!(one.is_ok());
}

#[test]
fn envelopes_hold_base64_bodies() {
    let body = response_body(RawBody::Binary(vec![0, 255]), String::new());
    let text = build_envelope(200, &body, vec![], true, 0);
    let envelope: serde_json::Value = serde_json::from_str(&text).unwrap();
    assert_eq!(envelope["encoding"], "base64");
    assert_eq!(envelope["body"], "AP8=");
    assert!(envelope["headers"].as_object().unwrap().is_empty());
}

#[test]
fn envelopes_have_six_fields() {
    let body = response_body(RawBody::Text("b".to_string()), String::new());
    let fields = envelope(204, &body, vec![], true, 3);
    let names: Vec<&str> = fields.iter().map(|field| field.0).collect();
    assert_eq!(names, ["status", "body", "encoding", "headers", "ok", "duration_ms"]);
    assert!(matches!(fields[0].1, JsonField::Number(204)));
    assert!(matches!(&fields[1].1, JsonField::Text(text) if text == "b"));
    assert!(matches!(&fields[2].1, JsonField::Text(text) if text == "text"));
    assert!(matches!(&fields[3].1, JsonField::Object(pairs) if pairs.is_empty()));
    assert!(matches!(fields[4].1, JsonField::Flag(true)));
    assert!(matches!(fields[5].1, JsonField::Number(3)));
}

#[test]
fn each_activity_asks_about_its_own_function() {
    let http = taken(execute_http::execute(
        HttpPolicy::AzureDomains,
        Ok(http_config(SAS_URL, "GET")),
    ));
    assert_eq!(
        http.privilege_query(),
        "SELECT CASE \
             WHEN p.oid IS NULL THEN 'absent' \
             WHEN pg_catalog.has_function_privilege($1::regrole, p.oid, 'EXECUTE') THEN 'allowed' \
             ELSE 'denied' \
         END \
         FROM (SELECT COALESCE( \
             pg_catalog.to_regprocedure('df.http(text,text,text,jsonb,integer,jsonb)'), \
             pg_catalog.to_regprocedure('df.http(text,text,text,jsonb,integer)') \
         ) AS oid) p"
    );
    let multipart = taken(execute_multipart::execute(
        HttpPolicy::AzureDomains,
        Ok(multipart_config(SAS_URL, "POST", "")),
    ));
    assert_eq!(
        multipart.privilege_query(),
        "SELECT CASE \
             WHEN p.oid IS NULL THEN 'absent' \
             WHEN pg_catalog.has_function_privilege($1::regrole, p.oid, 'EXECUTE') THEN 'allowed' \
             ELSE 'denied' \
         END \
         FROM (SELECT COALESCE( \
             pg_catalog.to_regprocedure('df.http_multipart(text,text,jsonb,jsonb,integer,jsonb)'), \
             pg_catalog.to_regprocedure('df.http_multipart(text,text,jsonb,jsonb,integer)') \
         ) AS oid) p"
    );
}

#[test]
fn errors_on_reading_a_body_are_redacted() {
    let text = format!("error decoding response body for url ({SAS_URL})");
    assert_eq!(
        on_its_way().completed(answer(200, Err(text))),
        (None, Err(format!("error decoding response body for url ({SAFE_URL})")))
    );
}
