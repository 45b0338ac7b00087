//! The response envelope that an activity returns to the workflow.
use vstd::prelude::*;
use vstd::string::*;

use crate::encoding::encode_standard;
#[allow(unused_imports)]
use crate::encoding::{decodes_to, law_unbroken_unchanged, standard_encoded, stripped};
#[allow(unused_imports)]
use crate::types::pairs_view;

verus! {

/// The body of a response as it was read.
pub enum RawBody {
    /// The `Content-Type` is textual.
    Text(String),
    /// It is not: the raw bytes.
    Binary(Vec<u8>),
}

/// The body of a response as it is returned.
pub struct ResponseBody {
    pub text: String,
    /// `text` or `base64`.
    pub encoding: &'static str,
    /// What an error message quotes of the body.
    pub preview: String,
}

/// The mathematical value of a `ResponseBody`.
pub struct ResponseBodyView {
    pub text: Seq<char>,
    pub encoding: Seq<char>,
    pub preview: Seq<char>,
}

impl View for ResponseBody {
    type V = ResponseBodyView;

    open spec fn view(&self) -> ResponseBodyView {
        ResponseBodyView { text: self.text@, encoding: self.encoding@, preview: self.preview@ }
    }
}

/// The form in which a body is returned.
pub open spec fn returned_body(raw: RawBody, preview: Seq<char>) -> ResponseBodyView {
    match raw {
        RawBody::Text(text) => ResponseBodyView { text: text@, encoding: "text"@, preview },
        RawBody::Binary(bytes) => ResponseBodyView {
            text: standard_encoded(bytes@),
            encoding: "base64"@,
            preview,
        },
    }
}

/// Puts a body into the form in which it is returned: text as it is, anything
/// else in base64. A body in base64 can be the payload of a part of a form: it
/// decodes to the bytes that were read. The bound keeps the base64 within what
/// a string can hold.
pub fn response_body(raw: RawBody, preview: String) -> (body: ResponseBody)
    requires
        raw matches RawBody::Binary(bytes) ==> bytes@.len() <= isize::MAX / 4 * 3,
    ensures
        body@ == returned_body(raw, preview@),
        raw matches RawBody::Binary(bytes) ==> decodes_to(stripped(body@.text), bytes@),
{
    match raw {
        RawBody::Text(text) => ResponseBody { text, encoding: "text", preview },
        RawBody::Binary(bytes) => {
            let text = encode_standard(&bytes);
            proof {
                law_unbroken_unchanged(text@);
            }
            ResponseBody { text, encoding: "base64", preview }
        },
    }
}

/// A value in a JSON object.
pub enum JsonField {
    Text(String),
    Number(u64),
    Flag(bool),
    /// An object of strings.
    Object(Vec<(String, String)>),
}

/// The mathematical value of a `JsonField`.
pub enum JsonFieldView {
    Text(Seq<char>),
    Number(u64),
    Flag(bool),
    Object(Seq<(Seq<char>, Seq<char>)>),
}

impl View for JsonField {
    type V = JsonFieldView;

    open spec fn view(&self) -> JsonFieldView {
        match self {
            JsonField::Text(text) => JsonFieldView::Text(text@),
            JsonField::Number(n) => JsonFieldView::Number(*n),
            JsonField::Flag(flag) => JsonFieldView::Flag(*flag),
            JsonField::Object(pairs) => JsonFieldView::Object(pairs_view(pairs@)),
        }
    }
}

/// The fields of an object as a mathematical value.
pub open spec fn fields_view(fields: Seq<(&'static str, JsonField)>) -> Seq<
    (Seq<char>, JsonFieldView),
> {
    fields.map_values(|f: (&'static str, JsonField)| (f.0@, f.1@))
}

/// The text of the JSON object made by inserting the fields one by one.
pub uninterp spec fn json_object_text(fields: Seq<(Seq<char>, JsonFieldView)>) -> Seq<char>;

/// Builds a `serde_json::Map` by its `insert`, field by field, and calls
/// `to_string` on the `serde_json::Value` of it. The text depends on the fields
/// alone and is named `json_object_text`.
#[verifier::external_body]
fn object_text(fields: Vec<(&'static str, JsonField)>) -> (text: String)
    ensures
        text@ == json_object_text(fields_view(fields@)),
{
    let mut object = serde_json::Map::new();
    for (name, field) in fields {
        let value = match field {
            JsonField::Text(text) => serde_json::Value::String(text),
            JsonField::Number(n) => serde_json::Value::from(n),
            JsonField::Flag(flag) => serde_json::Value::Bool(flag),
            JsonField::Object(pairs) => serde_json::Value::Object(
                pairs.into_iter().map(|(k, v)| (k, serde_json::Value::String(v))).collect(),
            ),
        };
        object.insert(name.to_string(), value);
    }
    serde_json::Value::Object(object).to_string()
}

/// The fields of the envelope of a response.
pub open spec fn envelope_fields(
    status: u16,
    body: ResponseBodyView,
    headers: Seq<(Seq<char>, Seq<char>)>,
    ok: bool,
    duration_ms: u64,
) -> Seq<(Seq<char>, JsonFieldView)> {
    seq![
        ("status"@, JsonFieldView::Number(status as u64)),
        ("body"@, JsonFieldView::Text(body.text)),
        ("encoding"@, JsonFieldView::Text(body.encoding)),
        ("headers"@, JsonFieldView::Object(headers)),
        ("ok"@, JsonFieldView::Flag(ok)),
        ("duration_ms"@, JsonFieldView::Number(duration_ms)),
    ]
}

/// The fields of the envelope of a response.
pub fn envelope(
    status: u16,
    body: &ResponseBody,
    headers: Vec<(String, String)>,
    ok: bool,
    duration_ms: u64,
) -> (fields: Vec<(&'static str, JsonField)>)
    ensures
        fields_view(fields@) == envelope_fields(
            status,
            body@,
            pairs_view(headers@),
            ok,
            duration_ms,
        ),
{
    let ghost sent = pairs_view(headers@);
    let fields = vec![
        ("status", JsonField::Number(status as u64)),
        ("body", JsonField::Text(body.text.clone())),
        ("encoding", JsonField::Text(body.encoding.to_owned())),
        ("headers", JsonField::Object(headers)),
        ("ok", JsonField::Flag(ok)),
        ("duration_ms", JsonField::Number(duration_ms)),
    ];
    assert(fields_view(fields@) =~= envelope_fields(status, body@, sent, ok, duration_ms));
    fields
}

/// The envelope of a response, as JSON text.
pub fn build_envelope(
    status: u16,
    body: &ResponseBody,
    headers: Vec<(String, String)>,
    ok: bool,
    duration_ms: u64,
) -> (text: String)
    ensures
        text@ == json_object_text(
            envelope_fields(status, body@, pairs_view(headers@), ok, duration_ms),
        ),
{
    object_text(envelope(status, body, headers, ok, duration_ms))
}

} // verus!
