//! What a workflow node asks for, and the request that is made of it.
use vstd::prelude::*;

#[allow(unused_imports)]
use crate::text::option_view;

verus! {

/// The two kinds of HTTP activity.
#[derive(Clone, Copy, PartialEq, Eq, Structural, Debug)]
pub enum Activity {
    /// `df.http()`: an optional text body.
    Http,
    /// `df.http_multipart()`: a `multipart/form-data` body.
    Multipart,
}

/// One entry of a JSON object of headers. The value is present where it is a
/// JSON string.
pub struct HeaderEntry {
    pub name: String,
    pub value: Option<String>,
}

/// The JSON value given for the headers.
pub enum Headers {
    /// A JSON object, entry by entry.
    Entries(Vec<HeaderEntry>),
    /// Any other JSON value.
    NotAnObject,
}

/// Configuration of an HTTP node.
pub struct HttpConfig {
    pub url: String,
    pub method: String,
    pub body: Option<String>,
    pub headers: Option<Headers>,
    pub timeout_seconds: u64,
    /// The role that submitted the node.
    pub submitted_by: Option<String>,
}

/// One part of a multipart node.
pub struct MultipartPart {
    pub name: String,
    /// The content in base64.
    pub data_b64: String,
    pub content_type: Option<String>,
    pub filename: Option<String>,
}

/// Configuration of a multipart HTTP node.
pub struct MultipartConfig {
    pub url: String,
    pub method: String,
    pub parts: Vec<MultipartPart>,
    pub headers: Option<Headers>,
    pub timeout_seconds: u64,
    /// The role that submitted the node.
    pub submitted_by: Option<String>,
}

/// What a job sends besides headers.
pub enum Payload {
    /// An optional text.
    Body(Option<String>),
    /// The parts of a form.
    Parts(Vec<MultipartPart>),
}

/// What either activity does: one request on behalf of a role.
pub struct Job {
    pub url: String,
    pub method: String,
    pub headers: Option<Headers>,
    pub timeout_seconds: u64,
    pub submitted_by: String,
    pub payload: Payload,
}

/// One part of a form, decoded and checked.
pub struct FormPart {
    pub name: String,
    pub bytes: Vec<u8>,
    pub content_type: Option<String>,
    pub filename: Option<String>,
}

/// What a request carries.
pub enum RequestBody {
    Empty,
    Text(String),
    Form(Vec<FormPart>),
}

/// A request, ready to be sent.
pub struct Request {
    pub method: String,
    /// The canonical text of the URL.
    pub href: String,
    pub headers: Vec<(String, String)>,
    pub body: RequestBody,
}

/// The mathematical value of a `HeaderEntry`.
pub struct HeaderEntryView {
    pub name: Seq<char>,
    pub value: Option<Seq<char>>,
}

impl View for HeaderEntry {
    type V = HeaderEntryView;

    open spec fn view(&self) -> HeaderEntryView {
        HeaderEntryView { name: self.name@, value: option_view(self.value) }
    }
}

/// The mathematical value of the headers of a node: the entries, where they
/// are given as a JSON object.
pub open spec fn header_entries(headers: Option<Headers>) -> Option<Seq<HeaderEntryView>> {
    match headers {
        Some(Headers::Entries(entries)) => Some(entries@.map_values(|e: HeaderEntry| e@)),
        _ => None,
    }
}

/// The mathematical value of an `HttpConfig`.
pub struct HttpConfigView {
    pub url: Seq<char>,
    pub method: Seq<char>,
    pub body: Option<Seq<char>>,
    pub headers: Option<Seq<HeaderEntryView>>,
    pub timeout_seconds: u64,
    pub submitted_by: Option<Seq<char>>,
}

impl View for HttpConfig {
    type V = HttpConfigView;

    open spec fn view(&self) -> HttpConfigView {
        HttpConfigView {
            url: self.url@,
            method: self.method@,
            body: option_view(self.body),
            headers: header_entries(self.headers),
            timeout_seconds: self.timeout_seconds,
            submitted_by: option_view(self.submitted_by),
        }
    }
}

/// The mathematical value of a `MultipartPart`.
pub struct MultipartPartView {
    pub name: Seq<char>,
    pub data_b64: Seq<char>,
    pub content_type: Option<Seq<char>>,
    pub filename: Option<Seq<char>>,
}

impl View for MultipartPart {
    type V = MultipartPartView;

    open spec fn view(&self) -> MultipartPartView {
        MultipartPartView {
            name: self.name@,
            data_b64: self.data_b64@,
            content_type: option_view(self.content_type),
            filename: option_view(self.filename),
        }
    }
}

/// The mathematical value of a list of parts.
pub open spec fn parts_view(parts: Seq<MultipartPart>) -> Seq<MultipartPartView> {
    parts.map_values(|p: MultipartPart| p@)
}

/// The mathematical value of a `MultipartConfig`.
pub struct MultipartConfigView {
    pub url: Seq<char>,
    pub method: Seq<char>,
    pub parts: Seq<MultipartPartView>,
    pub headers: Option<Seq<HeaderEntryView>>,
    pub timeout_seconds: u64,
    pub submitted_by: Option<Seq<char>>,
}

impl View for MultipartConfig {
    type V = MultipartConfigView;

    open spec fn view(&self) -> MultipartConfigView {
        MultipartConfigView {
            url: self.url@,
            method: self.method@,
            parts: parts_view(self.parts@),
            headers: header_entries(self.headers),
            timeout_seconds: self.timeout_seconds,
            submitted_by: option_view(self.submitted_by),
        }
    }
}

/// The mathematical value of a `Payload`.
pub enum PayloadView {
    Body(Option<Seq<char>>),
    Parts(Seq<MultipartPartView>),
}

impl View for Payload {
    type V = PayloadView;

    open spec fn view(&self) -> PayloadView {
        match self {
            Payload::Body(body) => PayloadView::Body(option_view(*body)),
            Payload::Parts(parts) => PayloadView::Parts(parts_view(parts@)),
        }
    }
}

/// The mathematical value of a `Job`.
pub struct JobView {
    pub url: Seq<char>,
    pub method: Seq<char>,
    pub headers: Option<Seq<HeaderEntryView>>,
    pub timeout_seconds: u64,
    pub submitted_by: Seq<char>,
    pub payload: PayloadView,
}

impl JobView {
    /// The activity that does the job.
    pub open spec fn activity(self) -> Activity {
        match self.payload {
            PayloadView::Body(_) => Activity::Http,
            PayloadView::Parts(_) => Activity::Multipart,
        }
    }
}

impl View for Job {
    type V = JobView;

    open spec fn view(&self) -> JobView {
        JobView {
            url: self.url@,
            method: self.method@,
            headers: header_entries(self.headers),
            timeout_seconds: self.timeout_seconds,
            submitted_by: self.submitted_by@,
            payload: self.payload@,
        }
    }
}

impl Job {
    /// The activity that does the job.
    pub fn activity(&self) -> (activity: Activity)
        ensures
            activity == self@.activity(),
    {
        match &self.payload {
            Payload::Body(_) => Activity::Http,
            Payload::Parts(_) => Activity::Multipart,
        }
    }
}

/// The mathematical value of a `FormPart`.
pub struct FormPartView {
    pub name: Seq<char>,
    pub bytes: Seq<u8>,
    pub content_type: Option<Seq<char>>,
    pub filename: Option<Seq<char>>,
}

impl View for FormPart {
    type V = FormPartView;

    open spec fn view(&self) -> FormPartView {
        FormPartView {
            name: self.name@,
            bytes: self.bytes@,
            content_type: option_view(self.content_type),
            filename: option_view(self.filename),
        }
    }
}

/// The mathematical value of a form.
pub open spec fn form_view(form: Seq<FormPart>) -> Seq<FormPartView> {
    form.map_values(|p: FormPart| p@)
}

/// The mathematical value of a `RequestBody`.
pub enum RequestBodyView {
    Empty,
    Text(Seq<char>),
    Form(Seq<FormPartView>),
}

impl View for RequestBody {
    type V = RequestBodyView;

    open spec fn view(&self) -> RequestBodyView {
        match self {
            RequestBody::Empty => RequestBodyView::Empty,
            RequestBody::Text(text) => RequestBodyView::Text(text@),
            RequestBody::Form(form) => RequestBodyView::Form(form_view(form@)),
        }
    }
}

/// Pairs of strings as a mathematical value.
pub open spec fn pairs_view(pairs: Seq<(String, String)>) -> Seq<(Seq<char>, Seq<char>)> {
    pairs.map_values(|p: (String, String)| (p.0@, p.1@))
}

/// The mathematical value of a `Request`.
pub struct RequestView {
    pub method: Seq<char>,
    pub href: Seq<char>,
    pub headers: Seq<(Seq<char>, Seq<char>)>,
    pub body: RequestBodyView,
}

impl View for Request {
    type V = RequestView;

    open spec fn view(&self) -> RequestView {
        RequestView {
            method: self.method@,
            href: self.href@,
            headers: pairs_view(self.headers@),
            body: self.body@,
        }
    }
}

} // verus!
