//! What a job sends: the method, the headers and the body of its request.
use vstd::prelude::*;
use vstd::string::*;

use crate::encoding::{decode_error_text, decode_part_data, PartDataError};
#[allow(unused_imports)]
use crate::encoding::{decode_error_message, decoded_view, standard_decoded, stripped};
use crate::text::{equal_ignoring_case, same_text};
#[allow(unused_imports)]
use crate::text::{option_view, outcome_view, same_ignoring_case};
use crate::types::{Activity, FormPart, HeaderEntry, Headers, MultipartPart, Payload, RequestBody};
#[allow(unused_imports)]
use crate::types::{
    form_view, header_entries, pairs_view, parts_view, FormPartView, HeaderEntryView,
    MultipartPartView, PayloadView, RequestBodyView,
};

verus! {

/// The methods of an activity. A form is sent only with a method that carries
/// a body.
pub open spec fn supported_method(activity: Activity, method: Seq<char>) -> bool {
    match activity {
        Activity::Http => method == "GET"@ || method == "POST"@ || method == "PUT"@ || method
            == "DELETE"@ || method == "PATCH"@,
        Activity::Multipart => method == "POST"@ || method == "PUT"@ || method == "PATCH"@,
    }
}

/// The answer to a method that an activity does not have.
pub open spec fn unsupported_method(activity: Activity, method: Seq<char>) -> Seq<char> {
    match activity {
        Activity::Http => "Unsupported HTTP method: "@ + method,
        Activity::Multipart => "Unsupported HTTP method for multipart: "@ + method,
    }
}

/// The answer to a method.
pub open spec fn method_answer(activity: Activity, method: Seq<char>) -> Result<(), Seq<char>> {
    if supported_method(activity, method) {
        Ok(())
    } else {
        Err(unsupported_method(activity, method))
    }
}

/// Checks the method of a request.
pub fn check_method(activity: Activity, method: &str) -> (answer: Result<(), String>)
    ensures
        outcome_view(answer) == method_answer(activity, method@),
{
    let carries_body = same_text(method, "POST") || same_text(method, "PUT") || same_text(
        method,
        "PATCH",
    );
    let mut message = match activity {
        Activity::Http => {
            if carries_body || same_text(method, "GET") || same_text(method, "DELETE") {
                return Ok(());
            }
            "Unsupported HTTP method: ".to_owned()
        },
        Activity::Multipart => {
            if carries_body {
                return Ok(());
            }
            "Unsupported HTTP method for multipart: ".to_owned()
        },
    };
    message.append(method);
    Err(message)
}

/// The header is sent: its value is a string, and a form does not have a
/// `Content-Type` of the caller's, which would hide the boundary of its parts.
pub open spec fn sends_header(activity: Activity, entry: HeaderEntryView) -> bool {
    &&& entry.value is Some
    &&& activity == Activity::Multipart ==> !same_ignoring_case(entry.name, "content-type"@)
}

/// The entries that are sent, in their order.
pub open spec fn kept_entries(activity: Activity, entries: Seq<HeaderEntryView>) -> Seq<
    HeaderEntryView,
> {
    entries.filter(|entry: HeaderEntryView| sends_header(activity, entry))
}

/// The headers of a request; none where they are not given as an object.
pub open spec fn sent_headers(activity: Activity, headers: Option<Seq<HeaderEntryView>>) -> Seq<
    (Seq<char>, Seq<char>),
> {
    match headers {
        Some(entries) => kept_entries(activity, entries).map_values(
            |entry: HeaderEntryView| (entry.name, entry.value->0),
        ),
        None => Seq::empty(),
    }
}

fn keep_entries(activity: Activity, entries: &Vec<HeaderEntry>) -> (sent: Vec<(String, String)>)
    ensures
        pairs_view(sent@) == sent_headers(
            activity,
            Some(entries@.map_values(|e: HeaderEntry| e@)),
        ),
{
    let ghost all = entries@.map_values(|e: HeaderEntry| e@);
    let mut sent: Vec<(String, String)> = Vec::new();
    let mut i: usize = 0;
    proof {
        reveal(Seq::filter);
        assert(pairs_view(sent@) =~= sent_headers(activity, Some(all.take(0))));
    }
    while i < entries.len()
        invariant
            0 <= i <= entries@.len(),
            all == entries@.map_values(|e: HeaderEntry| e@),
            pairs_view(sent@) == sent_headers(activity, Some(all.take(i as int))),
        decreases entries@.len() - i,
    {
        let entry = &entries[i];
        let ghost before = sent@;
        proof {
            reveal(Seq::filter);
            assert(all.take(i + 1).drop_last() =~= all.take(i as int));
            assert(all.take(i + 1).last() == entry@);
        }
        let own_type = match activity {
            Activity::Http => false,
            Activity::Multipart => equal_ignoring_case(entry.name.as_str(), "content-type"),
        };
        if !own_type {
            if let Some(value) = &entry.value {
                sent.push((entry.name.clone(), value.clone()));
                assert(pairs_view(sent@) =~= pairs_view(before).push((entry.name@, value@)));
                assert(sent_headers(activity, Some(all.take(i + 1))) =~= sent_headers(
                    activity,
                    Some(all.take(i as int)),
                ).push((entry.name@, value@)));
            }
        }
        i = i + 1;
    }
    assert(all.take(i as int) =~= all);
    sent
}

/// The headers of a request.
pub fn request_headers(activity: Activity, headers: &Option<Headers>) -> (sent: Vec<
    (String, String),
>)
    ensures
        pairs_view(sent@) == sent_headers(activity, header_entries(*headers)),
{
    match headers {
        Some(Headers::Entries(entries)) => keep_entries(activity, entries),
        _ => {
            let sent: Vec<(String, String)> = Vec::new();
            assert(pairs_view(sent@) =~= Seq::empty());
            sent
        },
    }
}

/// The text names a media type.
pub uninterp spec fn media_type_valid(text: Seq<char>) -> bool;

/// The answer to the media type of a part.
pub open spec fn media_type_answer(text: Seq<char>) -> Result<(), Seq<char>> {
    if media_type_valid(text) {
        Ok(())
    } else {
        Err("builder error"@)
    }
}

/// Calls `reqwest::multipart::Part::mime_str` on an empty part. Whether it
/// accepts the text depends on the text alone and is named `media_type_valid`;
/// the error that it returns otherwise is displayed as "builder error".
#[verifier::external_body]
fn check_media_type(text: &str) -> (answer: Result<(), String>)
    ensures
        answer is Ok == media_type_valid(text@),
        answer matches Err(e) ==> e@ == "builder error"@,
{
    match reqwest::multipart::Part::bytes(Vec::new()).mime_str(text) {
        Ok(_) => Ok(()),
        Err(e) => Err(e.to_string()),
    }
}

/// The start of an answer that blames one part of a form.
pub open spec fn blamed(what: Seq<char>, name: Seq<char>, why: Seq<char>) -> Seq<char> {
    what + name + "': "@ + why
}

fn blame(what: &str, name: &str, why: &str) -> (message: String)
    ensures
        message@ == blamed(what@, name@, why@),
{
    let mut message = what.to_owned();
    message.append(name);
    message.append("': ");
    message.append(why);
    message
}

/// The form part that a part describes, given what its payload decodes to and
/// the answer to its media type.
pub open spec fn assembled_part(
    part: MultipartPartView,
    decoded: Result<Seq<u8>, PartDataError>,
    media_type: Result<(), Seq<char>>,
) -> Result<FormPartView, Seq<char>> {
    match decoded {
        Err(e) => Err(blamed("Invalid base64 in part '"@, part.name, decode_error_message(e))),
        Ok(bytes) => match media_type {
            Err(e) => Err(blamed("Invalid content_type for part '"@, part.name, e)),
            Ok(()) => Ok(
                FormPartView {
                    name: part.name,
                    bytes,
                    content_type: part.content_type,
                    filename: part.filename,
                },
            ),
        },
    }
}

/// The form part that a part describes: the bytes of its payload under its
/// name, content type and file name.
pub open spec fn formed_part(part: MultipartPartView) -> Result<FormPartView, Seq<char>> {
    assembled_part(
        part,
        standard_decoded(stripped(part.data_b64)),
        match part.content_type {
            Some(text) => media_type_answer(text),
            None => Ok(()),
        },
    )
}

/// The form that parts describe: each part in its place, or the answer to the
/// first part that describes none.
pub open spec fn formed(parts: Seq<MultipartPartView>) -> Result<Seq<FormPartView>, Seq<char>>
    decreases parts.len(),
{
    if parts.len() == 0 {
        Ok(Seq::empty())
    } else {
        match formed(parts.drop_last()) {
            Err(e) => Err(e),
            Ok(form) => match formed_part(parts.last()) {
                Err(e) => Err(e),
                Ok(part) => Ok(form.push(part)),
            },
        }
    }
}

/// A form part, or the answer instead of one, as a mathematical value.
pub open spec fn formed_part_view(formed: Result<FormPart, String>) -> Result<
    FormPartView,
    Seq<char>,
> {
    match formed {
        Ok(part) => Ok(part@),
        Err(e) => Err(e@),
    }
}

/// A form, or the answer instead of one, as a mathematical value.
pub open spec fn formed_view(formed: Result<Vec<FormPart>, String>) -> Result<
    Seq<FormPartView>,
    Seq<char>,
> {
    match formed {
        Ok(form) => Ok(form_view(form@)),
        Err(e) => Err(e@),
    }
}

fn copy_option(text: &Option<String>) -> (copy: Option<String>)
    ensures
        option_view(copy) == option_view(*text),
{
    match text {
        Some(t) => Some(t.clone()),
        None => None,
    }
}

/// Makes a form part, given what the payload decodes to and the answer to the
/// media type.
pub fn assemble_part(
    part: &MultipartPart,
    decoded: Result<Vec<u8>, PartDataError>,
    media_type: Result<(), String>,
) -> (formed: Result<FormPart, String>)
    ensures
        formed_part_view(formed) == assembled_part(
            part@,
            decoded_view(decoded),
            outcome_view(media_type),
        ),
{
    let bytes = match decoded {
        Ok(bytes) => bytes,
        Err(e) => {
            let why = decode_error_text(&e);
            return Err(blame("Invalid base64 in part '", part.name.as_str(), why.as_str()));
        },
    };
    if let Err(e) = media_type {
        return Err(blame("Invalid content_type for part '", part.name.as_str(), e.as_str()));
    }
    Ok(
        FormPart {
            name: part.name.clone(),
            bytes,
            content_type: copy_option(&part.content_type),
            filename: copy_option(&part.filename),
        },
    )
}

/// Decodes and checks one part of a form.
pub fn form_part(part: &MultipartPart) -> (formed: Result<FormPart, String>)
    ensures
        formed_part_view(formed) == formed_part(part@),
{
    let decoded = decode_part_data(part.data_b64.as_str());
    let media_type = match &part.content_type {
        Some(text) => check_media_type(text.as_str()),
        None => Ok(()),
    };
    assemble_part(part, decoded, media_type)
}

/// Once a part is refused, so is every list that starts with the same parts.
proof fn lemma_refused(parts: Seq<MultipartPartView>, n: int)
    requires
        0 <= n <= parts.len(),
        formed(parts.take(n)) is Err,
    ensures
        formed(parts) == formed(parts.take(n)),
    decreases parts.len() - n,
{
    if n < parts.len() {
        assert(parts.take(n + 1).drop_last() =~= parts.take(n));
        lemma_refused(parts, n + 1);
    } else {
        assert(parts.take(n) =~= parts);
    }
}

/// Builds the form that parts describe.
pub fn build_form(parts: &Vec<MultipartPart>) -> (built: Result<Vec<FormPart>, String>)
    ensures
        formed_view(built) == formed(parts_view(parts@)),
{
    let ghost all = parts_view(parts@);
    let mut form: Vec<FormPart> = Vec::new();
    let mut i: usize = 0;
    assert(form_view(form@) =~= Seq::empty());
    while i < parts.len()
        invariant
            0 <= i <= parts@.len(),
            all == parts_view(parts@),
            formed(all.take(i as int)) == Ok::<Seq<FormPartView>, Seq<char>>(form_view(form@)),
        decreases parts@.len() - i,
    {
        proof {
            assert(all.take(i + 1).drop_last() =~= all.take(i as int));
            assert(all.take(i + 1).last() == parts@[i as int]@);
        }
        match form_part(&parts[i]) {
            Ok(part) => {
                let ghost before = form_view(form@);
                let ghost shape = part@;
                form.push(part);
                assert(form_view(form@) =~= before.push(shape));
            },
            Err(e) => {
                proof {
                    lemma_refused(all, i + 1);
                }
                return Err(e);
            },
        }
        i = i + 1;
    }
    assert(all.take(i as int) =~= all);
    Ok(form)
}

/// The body of a request. A text is sent with any method.
pub open spec fn sent_body(payload: PayloadView) -> Result<RequestBodyView, Seq<char>> {
    match payload {
        PayloadView::Body(Some(text)) => Ok(RequestBodyView::Text(text)),
        PayloadView::Body(None) => Ok(RequestBodyView::Empty),
        PayloadView::Parts(parts) => match formed(parts) {
            Ok(form) => Ok(RequestBodyView::Form(form)),
            Err(e) => Err(e),
        },
    }
}

/// A body, or the answer instead of one, as a mathematical value.
pub open spec fn body_view(body: Result<RequestBody, String>) -> Result<
    RequestBodyView,
    Seq<char>,
> {
    match body {
        Ok(body) => Ok(body@),
        Err(e) => Err(e@),
    }
}

/// Makes the body of a request.
pub fn request_body(payload: Payload) -> (body: Result<RequestBody, String>)
    ensures
        body_view(body) == sent_body(payload@),
{
    match payload {
        Payload::Body(Some(text)) => Ok(RequestBody::Text(text)),
        Payload::Body(None) => Ok(RequestBody::Empty),
        Payload::Parts(parts) => match build_form(&parts) {
            Ok(form) => Ok(RequestBody::Form(form)),
            Err(e) => Err(e),
        },
    }
}

} // verus!
