//! Laws of views: the mathematical value of each type holds every part of it.
use vstd::prelude::*;

#[allow(unused_imports)]
use crate::activities::exchange::{
    clearance_view, departure_view, result_view, Cleared, ClearedView, Pending, PendingView,
    Response, SendFailure, Sent, SentView,
};
#[allow(unused_imports)]
use crate::activities::execute_http::{self, ClientSettings};
#[allow(unused_imports)]
use crate::activities::execute_multipart;
#[allow(unused_imports)]
use crate::activities::http_response::{fields_view, JsonField, JsonFieldView, ResponseBody};
#[allow(unused_imports)]
use crate::activities::privilege::verdict_view;
#[allow(unused_imports)]
use crate::activities::replay::{record_view, Answers, Record, RecordView, Reply, ReplyView};
#[allow(unused_imports)]
use crate::activities::request::{body_view, formed_part_view, formed_view};
#[allow(unused_imports)]
use crate::address::label_view;
#[allow(unused_imports)]
use crate::encoding::{decoded_view, PartDataError};
#[allow(unused_imports)]
use crate::settings::{init_view, Setting, SettingValue, SettingValueView, SettingView};
#[allow(unused_imports)]
use crate::ssrf::{target_view, Refusal};
#[allow(unused_imports)]
use crate::types::{
    form_view, header_entries, pairs_view, parts_view, Activity, FormPart, FormPartView,
    HeaderEntry, Headers, HttpConfig, HttpConfigView, Job, MultipartConfig, MultipartConfigView,
    MultipartPart, Payload, PayloadView, Request, RequestBody, RequestBodyView, RequestView,
};
#[allow(unused_imports)]
use crate::url::{parse_view, ParsedUrl, UrlView};

verus! {

/// An optional text and its value agree.
pub open spec fn same_option(text: Option<String>, value: Option<Seq<char>>) -> bool {
    match (text, value) {
        (Some(t), Some(v)) => t@ == v,
        (None, None) => true,
        _ => false,
    }
}

/// Pairs of texts and their values agree, one by one.
pub open spec fn same_pairs(
    pairs: Seq<(String, String)>,
    values: Seq<(Seq<char>, Seq<char>)>,
) -> bool {
    &&& pairs.len() == values.len()
    &&& forall|i: int|
        #![trigger pairs[i]]
        #![trigger values[i]]
        0 <= i < pairs.len() ==> pairs[i].0@ == values[i].0 && pairs[i].1@ == values[i].1
}

/// A parsed URL is all of its components.
pub proof fn law_url_viewed(url: ParsedUrl)
    ensures
        url@.href == url.href@,
        url@.scheme == url.scheme@,
        url@.has_authority == url.has_authority,
        url@.username == url.username@,
        same_option(url.password, url@.password),
        same_option(url.host, url@.host),
        same_option(url.domain, url@.domain),
        url@.port == url.port,
        url@.path == url.path@,
        same_option(url.query, url@.query),
        same_option(url.fragment, url@.fragment),
        parse_view(Ok(url)) == Ok::<UrlView, Seq<char>>(url@),
{
}

/// A failed parse is its words.
pub proof fn law_failed_parse_viewed(e: String)
    ensures
        parse_view(Err(e)) == Err::<UrlView, Seq<char>>(e@),
{
}

/// A header is its name and its value.
pub proof fn law_header_viewed(entry: HeaderEntry)
    ensures
        entry@.name == entry.name@,
        same_option(entry.value, entry@.value),
{
}

/// Headers given as an object are all of their entries; any other are none.
pub proof fn law_headers_viewed(entries: Vec<HeaderEntry>)
    ensures
        header_entries(Some(Headers::Entries(entries))) matches Some(values) && {
            &&& values.len() == entries@.len()
            &&& forall|i: int| 0 <= i < values.len() ==> #[trigger] values[i] == entries@[i]@
        },
        header_entries(Some(Headers::NotAnObject)) is None,
        header_entries(None) is None,
{
}

/// A part of a node is its name, payload, content type and file name.
pub proof fn law_part_viewed(part: MultipartPart)
    ensures
        part@.name == part.name@,
        part@.data_b64 == part.data_b64@,
        same_option(part.content_type, part@.content_type),
        same_option(part.filename, part@.filename),
{
}

/// A part of a form is its name, bytes, content type and file name.
pub proof fn law_form_part_viewed(part: FormPart)
    ensures
        part@.name == part.name@,
        part@.bytes == part.bytes@,
        same_option(part.content_type, part@.content_type),
        same_option(part.filename, part@.filename),
{
}

/// Lists are all of their items, in their order.
pub proof fn law_lists_viewed(
    parts: Seq<MultipartPart>,
    form: Seq<FormPart>,
    pairs: Seq<(String, String)>,
    fields: Seq<(&'static str, JsonField)>,
)
    ensures
        parts_view(parts).len() == parts.len(),
        forall|i: int| 0 <= i < parts.len() ==> #[trigger] parts_view(parts)[i] == parts[i]@,
        form_view(form).len() == form.len(),
        forall|i: int| 0 <= i < form.len() ==> #[trigger] form_view(form)[i] == form[i]@,
        same_pairs(pairs, pairs_view(pairs)),
        fields_view(fields).len() == fields.len(),
        forall|i: int|
            0 <= i < fields.len() ==> #[trigger] fields_view(fields)[i] == (
                fields[i].0@,
                fields[i].1@,
            ),
{
}

/// A configuration of an HTTP node is all that it says.
pub proof fn law_http_config_viewed(config: HttpConfig)
    ensures
        config@.url == config.url@,
        config@.method == config.method@,
        same_option(config.body, config@.body),
        config@.headers == header_entries(config.headers),
        config@.timeout_seconds == config.timeout_seconds,
        same_option(config.submitted_by, config@.submitted_by),
        execute_http::config_view(Ok(config)) == Ok::<HttpConfigView, Seq<char>>(config@),
{
}

/// A configuration of a multipart node is all that it says.
pub proof fn law_multipart_config_viewed(config: MultipartConfig)
    ensures
        config@.url == config.url@,
        config@.method == config.method@,
        config@.parts == parts_view(config.parts@),
        config@.headers == header_entries(config.headers),
        config@.timeout_seconds == config.timeout_seconds,
        same_option(config.submitted_by, config@.submitted_by),
        execute_multipart::config_view(Ok(config)) == Ok::<MultipartConfigView, Seq<char>>(
            config@,
        ),
{
}

/// A configuration that cannot be read is the words of the error.
pub proof fn law_unread_config_viewed(e: String)
    ensures
        execute_http::config_view(Err(e)) == Err::<HttpConfigView, Seq<char>>(e@),
        execute_multipart::config_view(Err(e)) == Err::<MultipartConfigView, Seq<char>>(e@),
{
}

/// A job is all that it asks for, and its payload decides the activity.
pub proof fn law_job_viewed(job: Job)
    ensures
        job@.url == job.url@,
        job@.method == job.method@,
        job@.headers == header_entries(job.headers),
        job@.timeout_seconds == job.timeout_seconds,
        job@.submitted_by == job.submitted_by@,
        match job.payload {
            Payload::Body(text) => job@.payload matches PayloadView::Body(value) && same_option(
                text,
                value,
            ),
            Payload::Parts(parts) => job@.payload == PayloadView::Parts(parts_view(parts@)),
        },
        job@.activity() == (match job.payload {
            Payload::Body(_) => Activity::Http,
            Payload::Parts(_) => Activity::Multipart,
        }),
{
}

/// A request is its method, URL, headers and body.
pub proof fn law_request_viewed(request: Request)
    ensures
        request@.method == request.method@,
        request@.href == request.href@,
        same_pairs(request.headers@, request@.headers),
        match request.body {
            RequestBody::Empty => request@.body == RequestBodyView::Empty,
            RequestBody::Text(text) => request@.body == RequestBodyView::Text(text@),
            RequestBody::Form(form) => request@.body == RequestBodyView::Form(form_view(form@)),
        },
        body_view(Ok(request.body)) == Ok::<RequestBodyView, Seq<char>>(request.body@),
        request@.body == request.body@,
{
}

/// A failure is its text, all of its causes and its marks.
pub proof fn law_failure_viewed(failure: SendFailure)
    ensures
        failure@.text == failure.text@,
        failure@.causes.len() == failure.causes@.len(),
        forall|i: int|
            0 <= i < failure.causes@.len() ==> #[trigger] failure@.causes[i]
                == failure.causes@[i]@,
        failure@.status == failure.status,
        failure@.timeout == failure.timeout,
        failure@.connect == failure.connect,
{
}

/// A body of a response is its text, encoding and preview.
pub proof fn law_response_body_viewed(body: ResponseBody)
    ensures
        body@.text == body.text@,
        body@.encoding == body.encoding@,
        body@.preview == body.preview@,
{
}

/// A response is its status, all of its headers, its body and its duration.
pub proof fn law_response_viewed(response: Response)
    ensures
        response@.status == response.status,
        same_pairs(response.headers@, response@.headers),
        match response.body {
            Ok(body) => response@.body matches Ok(value) && value == body@,
            Err(e) => response@.body matches Err(value) && value == e@,
        },
        response@.duration_ms == response.duration_ms,
{
}

/// A field of an object is its value.
pub proof fn law_field_viewed(field: JsonField)
    ensures
        match field {
            JsonField::Text(text) => field@ == JsonFieldView::Text(text@),
            JsonField::Number(n) => field@ == JsonFieldView::Number(n),
            JsonField::Flag(flag) => field@ == JsonFieldView::Flag(flag),
            JsonField::Object(pairs) => field@ matches JsonFieldView::Object(values)
                && same_pairs(pairs@, values),
        },
{
}

/// The world's answers are all of them.
pub proof fn law_answers_viewed(answers: Answers)
    ensures
        match answers.verdict {
            Ok(Some(word)) => answers@.verdict == Ok::<Option<Seq<char>>, Seq<char>>(Some(word@)),
            Ok(None) => answers@.verdict == Ok::<Option<Seq<char>>, Seq<char>>(None),
            Err(e) => answers@.verdict == Err::<Option<Seq<char>>, Seq<char>>(e@),
        },
        answers@.verdict == verdict_view(answers.verdict),
        match answers.client {
            Ok(()) => answers@.client is Ok,
            Err(e) => answers@.client == Err::<(), Seq<char>>(e@),
        },
        match answers.reply {
            Reply::Failed(failure) => answers@.reply == ReplyView::Failed(failure@),
            Reply::Answered(response) => answers@.reply == ReplyView::Answered(response@),
        },
{
}

/// A record is all of its lines, what was sent and the result.
pub proof fn law_record_viewed(record: Record)
    ensures
        record@.role == record.role@,
        record@.query == record.query@,
        match record.client {
            Some(settings) => record@.client == Some(settings@),
            None => record@.client is None,
        },
        record_view(Ok(record)) == Ok::<RecordView, Seq<char>>(record@),
        record@.log.len() == record.log@.len(),
        forall|i: int| 0 <= i < record.log@.len() ==> #[trigger] record@.log[i] == record.log@[i]@,
        match record.sent {
            Some(request) => record@.sent == Some(request@),
            None => record@.sent is None,
        },
        record@.result == result_view(record.result),
        match record.result {
            Ok(text) => record@.result == Ok::<Seq<char>, Seq<char>>(text@),
            Err(e) => record@.result == Err::<Seq<char>, Seq<char>>(e@),
        },
{
}

/// The settings of a client are all of them.
pub proof fn law_client_viewed(settings: ClientSettings)
    ensures
        settings@.timeout_seconds == settings.timeout_seconds,
        settings@.user_agent == settings.user_agent@,
        settings@.follow_redirects == settings.follow_redirects,
        settings@.use_system_proxy == settings.use_system_proxy,
        settings@.screen_addresses == settings.screen_addresses,
{
}

/// Decoded bytes, parts and forms are what came out, or the error.
pub proof fn law_decoded_viewed(bytes: Vec<u8>, error: PartDataError)
    ensures
        decoded_view(Ok(bytes)) == Ok::<Seq<u8>, PartDataError>(bytes@),
        decoded_view(Err(error)) == Err::<Seq<u8>, PartDataError>(error),
{
}

/// Parts of forms, forms and bodies are what was made, or the words of the
/// error.
pub proof fn law_made_viewed(part: FormPart, form: Vec<FormPart>, e: String)
    ensures
        formed_part_view(Ok(part)) == Ok::<FormPartView, Seq<char>>(part@),
        formed_part_view(Err(e)) == Err::<FormPartView, Seq<char>>(e@),
        formed_view(Ok(form)) == Ok::<Seq<FormPartView>, Seq<char>>(form_view(form@)),
        formed_view(Err(e)) == Err::<Seq<FormPartView>, Seq<char>>(e@),
        body_view(Err(e)) == Err::<RequestBodyView, Seq<char>>(e@),
{
}

/// The answer to a target is the text to be sent, or reason and message.
pub proof fn law_target_viewed(href: String, refusal: Refusal)
    ensures
        target_view(Ok(href)) matches Ok(text) && text == href@,
        target_view(Err(refusal)) matches Err(value) && value.reason == refusal.reason@
            && value.message == refusal.message@,
{
}

/// A setting is all that defines it.
pub proof fn law_setting_viewed(setting: Setting)
    ensures
        setting@.name == setting.name@,
        setting@.summary == setting.summary@,
        setting@.details == setting.details@,
        match setting.initial {
            SettingValue::Text(text) => setting@.initial == SettingValueView::Text(text@),
            SettingValue::Integer { value, least, greatest } => setting@.initial
                == (SettingValueView::Integer { value, least, greatest }),
            SettingValue::Flag(flag) => setting@.initial == SettingValueView::Flag(flag),
        },
        setting@.context == setting.context,
        setting@.superuser_only == setting.superuser_only,
{
}

/// The outcome of the start-up is all of the settings, or the message.
pub proof fn law_start_viewed(settings: Vec<Setting>, message: &'static str)
    ensures
        init_view(Ok(settings)) matches Ok(values) && {
            &&& values.len() == settings@.len()
            &&& forall|i: int| 0 <= i < values.len() ==> #[trigger] values[i] == settings@[i]@
        },
        init_view(Err(message)) == Err::<Seq<SettingView>, Seq<char>>(message@),
{
}

/// A label is its text.
pub proof fn law_label_viewed(label: &'static str)
    ensures
        label_view(Some(label)) == Some(label@),
        label_view(None) is None,
{
}

/// A job taken up, a clearance and a departure are what came out, or the words
/// of the error.
pub proof fn law_steps_viewed(
    pending: Pending,
    cleared: Cleared,
    request: Request,
    sent: Sent,
    e: String,
)
    ensures
        execute_http::taken_view(Ok(pending)) == Ok::<PendingView, Seq<char>>(pending@),
        execute_http::taken_view(Err(e)) == Err::<PendingView, Seq<char>>(e@),
        clearance_view(Ok(cleared)) == Ok::<ClearedView, Seq<char>>(cleared@),
        clearance_view(Err(e)) == Err::<ClearedView, Seq<char>>(e@),
        departure_view(Ok((request, sent))) == Ok::<(RequestView, SentView), Seq<char>>(
            (request@, sent@),
        ),
        departure_view(Err(e)) == Err::<(RequestView, SentView), Seq<char>>(e@),
        record_view(Err(e)) == Err::<RecordView, Seq<char>>(e@),
        result_view(Err(e)) == Err::<Seq<char>, Seq<char>>(e@),
        result_view(Ok(e)) == Ok::<Seq<char>, Seq<char>>(e@),
{
}

} // verus!
