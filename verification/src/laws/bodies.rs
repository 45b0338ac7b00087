//! Laws of bodies and headers: base64 payloads, forms, responses.
use vstd::prelude::*;

#[allow(unused_imports)]
use crate::activities::http_response::{
    envelope_fields, returned_body, JsonFieldView, RawBody, ResponseBodyView,
};
#[allow(unused_imports)]
use crate::activities::request::{
    assembled_part, formed, formed_part, kept_entries, media_type_valid, method_answer,
    sends_header, sent_body, sent_headers,
};
#[allow(unused_imports)]
use crate::encoding::{
    decode_error_message, law_unbroken_unchanged, standard_decoded, standard_encoded, stripped,
    unbroken, wrapped, PartDataError,
};
#[allow(unused_imports)]
use crate::text::{ascii_whitespace, decimal, same_ignoring_case};
#[allow(unused_imports)]
use crate::types::{
    Activity, FormPartView, HeaderEntryView, MultipartPartView, PayloadView, RequestBodyView,
};

verus! {

/// Stripping white space works piece by piece.
pub proof fn law_stripped_piecewise(a: Seq<char>, b: Seq<char>)
    ensures
        stripped(a + b) == stripped(a) + stripped(b),
    decreases b.len(),
{
    reveal(Seq::filter);
    if b.len() == 0 {
        assert(a + b =~= a);
        assert(stripped(a) + stripped(b) =~= stripped(a));
    } else {
        assert((a + b).drop_last() =~= a + b.drop_last());
        law_stripped_piecewise(a, b.drop_last());
        assert(stripped(a + b) =~= stripped(a) + stripped(b));
    }
}

/// White space alone strips to nothing.
pub proof fn law_blank_strips_to_nothing(text: Seq<char>)
    requires
        forall|i: int| 0 <= i < text.len() ==> ascii_whitespace(#[trigger] text[i]),
    ensures
        stripped(text) == Seq::<char>::empty(),
    decreases text.len(),
{
    reveal(Seq::filter);
    if text.len() > 0 {
        law_blank_strips_to_nothing(text.drop_last());
    }
}

/// Base64 broken into lines of any width, by line feeds or any other white
/// space, decodes as it does on one line.
pub proof fn law_line_breaks_ignored(text: Seq<char>, width: nat, separator: Seq<char>)
    requires
        unbroken(text),
        forall|i: int| 0 <= i < separator.len() ==> ascii_whitespace(#[trigger] separator[i]),
    ensures
        stripped(wrapped(text, width, separator)) == text,
        standard_decoded(stripped(wrapped(text, width, separator))) == standard_decoded(
            stripped(text),
        ),
    decreases text.len(),
{
    law_unbroken_unchanged(text);
    if width != 0 && text.len() > width {
        let first = text.take(width as int);
        let rest = text.skip(width as int);
        assert(unbroken(rest)) by {
            assert forall|i: int| 0 <= i < rest.len() implies !ascii_whitespace(
                #[trigger] rest[i],
            ) by {
                assert(rest[i] == text[i + width]);
            }
        }
        law_line_breaks_ignored(rest, width, separator);
        law_unbroken_unchanged(first);
        law_blank_strips_to_nothing(separator);
        law_stripped_piecewise(first + separator, wrapped(rest, width, separator));
        law_stripped_piecewise(first, separator);
        assert(first + Seq::<char>::empty() + rest =~= text);
    }
}

/// White space around a payload is ignored.
pub proof fn law_surrounding_blanks_ignored(before: Seq<char>, text: Seq<char>, after: Seq<char>)
    requires
        forall|i: int| 0 <= i < before.len() ==> ascii_whitespace(#[trigger] before[i]),
        forall|i: int| 0 <= i < after.len() ==> ascii_whitespace(#[trigger] after[i]),
    ensures
        stripped(before + text + after) == stripped(text),
{
    law_blank_strips_to_nothing(before);
    law_blank_strips_to_nothing(after);
    law_stripped_piecewise(before + text, after);
    law_stripped_piecewise(before, text);
    assert(Seq::<char>::empty() + stripped(text) + Seq::<char>::empty() =~= stripped(text));
}

/// Each part of a form comes from the part in the same place, with its name,
/// content type and file name, and there is a form exactly where every part
/// is in order.
pub proof fn law_parts_one_to_one(parts: Seq<MultipartPartView>)
    ensures
        formed(parts) is Ok <==> forall|i: int|
            0 <= i < parts.len() ==> formed_part(#[trigger] parts[i]) is Ok,
        formed(parts) matches Ok(form) ==> {
            &&& form.len() == parts.len()
            &&& forall|i: int|
                #![trigger form[i]]
                #![trigger parts[i]]
                0 <= i < parts.len() ==> {
                    &&& form[i].name == parts[i].name
                    &&& form[i].content_type == parts[i].content_type
                    &&& form[i].filename == parts[i].filename
                    &&& standard_decoded(stripped(parts[i].data_b64)) matches Ok(bytes) && bytes
                        == form[i].bytes
                }
        },
    decreases parts.len(),
{
    if parts.len() > 0 {
        let shorter = parts.drop_last();
        law_parts_one_to_one(shorter);
        assert forall|i: int| 0 <= i < shorter.len() implies shorter[i] == #[trigger] parts[i] by {
        }
        if formed(parts) is Ok {
            let last = formed_part(parts.last())->Ok_0;
            let form = formed(parts)->Ok_0;
            assert(form == formed(shorter)->Ok_0.push(last));
            assert forall|i: int| 0 <= i < parts.len() implies formed_part(
                #[trigger] parts[i],
            ) is Ok by {
                if i < shorter.len() {
                    assert(formed_part(shorter[i]) is Ok);
                }
            }
            assert forall|i: int|
                #![trigger form[i]]
                #![trigger parts[i]]
                0 <= i < parts.len() implies {
                    &&& form[i].name == parts[i].name
                    &&& form[i].content_type == parts[i].content_type
                    &&& form[i].filename == parts[i].filename
                    &&& standard_decoded(stripped(parts[i].data_b64)) matches Ok(bytes) && bytes
                        == form[i].bytes
                } by {
                if i < shorter.len() {
                    assert(form[i] == formed(shorter)->Ok_0[i]);
                    assert(shorter[i] == parts[i]);
                } else {
                    assert(form[i] == last);
                }
            }
        } else if forall|i: int| 0 <= i < parts.len() ==> formed_part(#[trigger] parts[i]) is Ok {
            assert forall|i: int| 0 <= i < shorter.len() implies formed_part(
                #[trigger] shorter[i],
            ) is Ok by {
                assert(shorter[i] == parts[i]);
            }
            assert(formed_part(parts[parts.len() - 1]) is Ok);
        }
    }
}

proof fn lemma_kept(activity: Activity, entries: Seq<HeaderEntryView>, i: int)
    requires
        0 <= i < kept_entries(activity, entries).len(),
    ensures
        sends_header(activity, kept_entries(activity, entries)[i]),
        entries.contains(kept_entries(activity, entries)[i]),
{
    entries.lemma_filter_pred(|entry: HeaderEntryView| sends_header(activity, entry), i);
    entries.lemma_filter_contains_rev(
        |entry: HeaderEntryView| sends_header(activity, entry),
        kept_entries(activity, entries)[i],
    );
}

/// A form never carries a `Content-Type` of the caller's, in whatever case the
/// name is written.
pub proof fn law_form_has_no_own_type(headers: Option<Seq<HeaderEntryView>>, i: int)
    requires
        0 <= i < sent_headers(Activity::Multipart, headers).len(),
    ensures
        !same_ignoring_case(
            sent_headers(Activity::Multipart, headers)[i].0,
            "content-type"@,
        ),
{
    lemma_kept(Activity::Multipart, headers->0, i);
}

/// Every header with a string value is sent, save a form's own `Content-Type`.
pub proof fn law_string_headers_sent(
    activity: Activity,
    entries: Seq<HeaderEntryView>,
    i: int,
    value: Seq<char>,
)
    requires
        0 <= i < entries.len(),
        entries[i].value == Some(value),
        activity == Activity::Multipart ==> !same_ignoring_case(
            entries[i].name,
            "content-type"@,
        ),
    ensures
        sent_headers(activity, Some(entries)).contains((entries[i].name, value)),
{
    let pred = |entry: HeaderEntryView| sends_header(activity, entry);
    entries.lemma_filter_contains(pred, i);
    let kept = kept_entries(activity, entries);
    assert(kept.contains(entries[i]));
    let k = choose|k: int| 0 <= k < kept.len() && kept[k] == entries[i];
    assert(sent_headers(activity, Some(entries))[k] == (entries[i].name, value));
}

/// Nothing is sent as a header but a string value under its name.
pub proof fn law_only_string_headers_sent(
    activity: Activity,
    entries: Seq<HeaderEntryView>,
    i: int,
)
    requires
        0 <= i < sent_headers(activity, Some(entries)).len(),
    ensures
        exists|k: int|
            0 <= k < entries.len() && #[trigger] entries[k] == (HeaderEntryView {
                name: sent_headers(activity, Some(entries))[i].0,
                value: Some(sent_headers(activity, Some(entries))[i].1),
            }),
{
    lemma_kept(activity, entries, i);
    let kept = kept_entries(activity, entries)[i];
    let k = choose|k: int| 0 <= k < entries.len() && entries[k] == kept;
    assert(entries[k] == kept);
}

/// The methods of a plain request are five, those of a form three; the answer
/// to any other gives the method.
pub proof fn law_methods(method: Seq<char>)
    ensures
        method_answer(Activity::Http, method) == (if method == "GET"@ || method == "POST"@
            || method == "PUT"@ || method == "DELETE"@ || method == "PATCH"@ {
            Ok::<(), Seq<char>>(())
        } else {
            Err("Unsupported HTTP method: "@ + method)
        }),
        method_answer(Activity::Multipart, method) == (if method == "POST"@ || method == "PUT"@
            || method == "PATCH"@ {
            Ok::<(), Seq<char>>(())
        } else {
            Err("Unsupported HTTP method for multipart: "@ + method)
        }),
{
}

/// Headers are sent one by one: those of two lists are those of the one and
/// then those of the other. A header is sent, once and as it is, where its value
/// is a string, except for a `Content-Type` on a form. Headers that are not
/// given are not sent.
pub proof fn law_headers_sent(
    activity: Activity,
    one: Seq<HeaderEntryView>,
    other: Seq<HeaderEntryView>,
    name: Seq<char>,
    value: Seq<char>,
)
    ensures
        sent_headers(activity, Some(one + other)) == sent_headers(activity, Some(one))
            + sent_headers(activity, Some(other)),
        sent_headers(activity, Some(seq![HeaderEntryView { name, value: Some(value) }])) == (
        if activity == Activity::Multipart && same_ignoring_case(name, "content-type"@) {
            Seq::<(Seq<char>, Seq<char>)>::empty()
        } else {
            seq![(name, value)]
        }),
        sent_headers(activity, Some(seq![HeaderEntryView { name, value: None }])) == Seq::<
            (Seq<char>, Seq<char>),
        >::empty(),
        sent_headers(activity, Some(Seq::empty())) == Seq::<(Seq<char>, Seq<char>)>::empty(),
        sent_headers(activity, None) == Seq::<(Seq<char>, Seq<char>)>::empty(),
{
    let pred = |entry: HeaderEntryView| sends_header(activity, entry);
    Seq::filter_distributes_over_add(one, other, pred);
    assert(kept_entries(activity, one + other) =~= kept_entries(activity, one) + kept_entries(
        activity,
        other,
    ));
    assert(sent_headers(activity, Some(one + other)) =~= sent_headers(activity, Some(one))
        + sent_headers(activity, Some(other)));
    reveal(Seq::filter);
    let full = HeaderEntryView { name, value: Some(value) };
    let bare = HeaderEntryView { name, value: None };
    assert(seq![full].drop_last() =~= Seq::<HeaderEntryView>::empty());
    assert(seq![bare].drop_last() =~= Seq::<HeaderEntryView>::empty());
    assert(kept_entries(activity, Seq::empty()) =~= Seq::<HeaderEntryView>::empty());
    assert(kept_entries(activity, seq![bare]) =~= Seq::<HeaderEntryView>::empty());
    if activity == Activity::Multipart && same_ignoring_case(name, "content-type"@) {
        assert(kept_entries(activity, seq![full]) =~= Seq::<HeaderEntryView>::empty());
    } else {
        assert(kept_entries(activity, seq![full]) =~= seq![full]);
    }
    assert(sent_headers(activity, Some(Seq::empty())) =~= Seq::<(Seq<char>, Seq<char>)>::empty());
    assert(sent_headers(activity, Some(seq![bare])) =~= Seq::<(Seq<char>, Seq<char>)>::empty());
    if activity == Activity::Multipart && same_ignoring_case(name, "content-type"@) {
        assert(sent_headers(activity, Some(seq![full])) =~= Seq::<
            (Seq<char>, Seq<char>),
        >::empty());
    } else {
        assert(sent_headers(activity, Some(seq![full])) =~= seq![(name, value)]);
    }
}

/// The payload of a part decodes, and its content type, if it has one, names a
/// media type.
pub open spec fn part_in_order(part: MultipartPartView) -> bool {
    &&& standard_decoded(stripped(part.data_b64)) is Ok
    &&& part.content_type matches Some(text) ==> media_type_valid(text)
}

/// The words that blame a part that is not in order.
pub open spec fn part_blamed(part: MultipartPartView) -> Seq<char> {
    match standard_decoded(stripped(part.data_b64)) {
        Err(e) => "Invalid base64 in part '"@ + part.name + "': "@ + (match e {
            PartDataError::InvalidByte(at, byte) => "Invalid symbol "@ + decimal(byte as nat)
                + ", offset "@ + decimal(at as nat) + "."@,
            PartDataError::InvalidLength(n) => "Invalid input length: "@ + decimal(n as nat),
            PartDataError::InvalidLastSymbol(at, byte) => "Invalid last symbol "@ + decimal(
                byte as nat,
            ) + ", offset "@ + decimal(at as nat) + "."@,
            PartDataError::InvalidPadding => "Invalid padding"@,
        }),
        Ok(_) => "Invalid content_type for part '"@ + part.name + "': "@ + "builder error"@,
    }
}

/// A part in order makes a part of a form of its own bytes, under its own name,
/// content type and file name; one that is not in order is blamed by name.
pub proof fn law_part_formed(part: MultipartPartView)
    ensures
        part_in_order(part) ==> {
            &&& formed_part(part) matches Ok(made) && {
                &&& made.name == part.name
                &&& made.content_type == part.content_type
                &&& made.filename == part.filename
                &&& standard_decoded(stripped(part.data_b64)) == Ok::<Seq<u8>, PartDataError>(
                    made.bytes,
                )
            }
        },
        !part_in_order(part) ==> formed_part(part) == Err::<FormPartView, Seq<char>>(
            part_blamed(part),
        ),
{
}

/// A part is made of what its payload decoded to and of the answer to its media
/// type, the payload first.
pub proof fn law_part_assembled(
    part: MultipartPartView,
    bytes: Seq<u8>,
    error: PartDataError,
    media_type: Result<(), Seq<char>>,
    why: Seq<char>,
)
    ensures
        assembled_part(part, Ok(bytes), Ok(())) matches Ok(made) && {
            &&& made.name == part.name
            &&& made.bytes == bytes
            &&& made.content_type == part.content_type
            &&& made.filename == part.filename
        },
        assembled_part(part, Ok(bytes), Err(why)) == Err::<FormPartView, Seq<char>>(
            "Invalid content_type for part '"@ + part.name + "': "@ + why,
        ),
        assembled_part(part, Err(error), media_type) == Err::<FormPartView, Seq<char>>(
            "Invalid base64 in part '"@ + part.name + "': "@ + decode_error_message(error),
        ),
        decode_error_message(error) == (match error {
            PartDataError::InvalidByte(at, byte) => "Invalid symbol "@ + decimal(byte as nat)
                + ", offset "@ + decimal(at as nat) + "."@,
            PartDataError::InvalidLength(n) => "Invalid input length: "@ + decimal(n as nat),
            PartDataError::InvalidLastSymbol(at, byte) => "Invalid last symbol "@ + decimal(
                byte as nat,
            ) + ", offset "@ + decimal(at as nat) + "."@,
            PartDataError::InvalidPadding => "Invalid padding"@,
        }),
{
}

/// Where a part is not in order and all before it are, there is no form, and
/// that part is blamed.
pub proof fn law_first_bad_part_blamed(parts: Seq<MultipartPartView>, i: int)
    requires
        0 <= i < parts.len(),
        forall|k: int| 0 <= k < i ==> part_in_order(#[trigger] parts[k]),
        !part_in_order(parts[i]),
    ensures
        formed(parts) == Err::<Seq<FormPartView>, Seq<char>>(part_blamed(parts[i])),
    decreases parts.len(),
{
    let shorter = parts.drop_last();
    law_part_formed(parts.last());
    if i < shorter.len() {
        assert forall|k: int| 0 <= k < i implies part_in_order(#[trigger] shorter[k]) by {
            assert(shorter[k] == parts[k]);
        }
        law_first_bad_part_blamed(shorter, i);
    } else {
        assert forall|k: int| 0 <= k < shorter.len() implies part_in_order(
            #[trigger] shorter[k],
        ) by {
            assert(shorter[k] == parts[k]);
        }
        law_form_of_parts(shorter);
    }
}

/// A part of a form is that of a part: name, content type and file name are its
/// own, and the bytes are what its payload decodes to.
pub open spec fn part_of(made: FormPartView, part: MultipartPartView) -> bool {
    &&& made.name == part.name
    &&& made.content_type == part.content_type
    &&& made.filename == part.filename
    &&& standard_decoded(stripped(part.data_b64)) == Ok::<Seq<u8>, PartDataError>(made.bytes)
}

/// Where all parts are in order, the form has a part for each, in the same
/// place.
pub proof fn law_form_of_parts(parts: Seq<MultipartPartView>)
    requires
        forall|i: int| 0 <= i < parts.len() ==> part_in_order(#[trigger] parts[i]),
    ensures
        formed(parts) matches Ok(form) && {
            &&& form.len() == parts.len()
            &&& forall|i: int| 0 <= i < parts.len() ==> part_of(#[trigger] form[i], parts[i])
        },
    decreases parts.len(),
{
    if parts.len() > 0 {
        let shorter = parts.drop_last();
        assert forall|i: int| 0 <= i < shorter.len() implies part_in_order(
            #[trigger] shorter[i],
        ) by {
            assert(shorter[i] == parts[i]);
        }
        law_form_of_parts(shorter);
        assert(part_in_order(parts[parts.len() - 1]));
        law_part_formed(parts.last());
        let form = formed(parts)->Ok_0;
        let before = formed(shorter)->Ok_0;
        assert forall|i: int| 0 <= i < parts.len() implies part_of(#[trigger] form[i], parts[i]) by {
            if i < shorter.len() {
                assert(form[i] == before[i]);
                assert(shorter[i] == parts[i]);
            }
        }
    }
}

/// A text is sent as it is, whatever it holds; no text is sent as nothing; and
/// parts are sent as a form, with a part for each.
pub proof fn law_payload_sent(text: Seq<char>, parts: Seq<MultipartPartView>)
    ensures
        sent_body(PayloadView::Body(Some(text))) == Ok::<RequestBodyView, Seq<char>>(
            RequestBodyView::Text(text),
        ),
        sent_body(PayloadView::Body(None)) == Ok::<RequestBodyView, Seq<char>>(
            RequestBodyView::Empty,
        ),
        (forall|i: int| 0 <= i < parts.len() ==> part_in_order(#[trigger] parts[i])) ==> {
            &&& sent_body(PayloadView::Parts(parts)) matches Ok(RequestBodyView::Form(form)) && {
                &&& form.len() == parts.len()
                &&& forall|i: int| 0 <= i < parts.len() ==> part_of(#[trigger] form[i], parts[i])
            }
        },
{
    if forall|i: int| 0 <= i < parts.len() ==> part_in_order(#[trigger] parts[i]) {
        law_form_of_parts(parts);
    }
}

/// The envelope of a response has six fields: its status, the text of its body,
/// the encoding, all of its headers in their order, whether it is a success,
/// and how long it took.
pub proof fn law_envelope_complete(
    status: u16,
    body: ResponseBodyView,
    headers: Seq<(Seq<char>, Seq<char>)>,
    ok: bool,
    duration_ms: u64,
)
    ensures
        ({
            let fields = envelope_fields(status, body, headers, ok, duration_ms);
            &&& fields.len() == 6
            &&& fields.contains(("status"@, JsonFieldView::Number(status as u64)))
            &&& fields.contains(("body"@, JsonFieldView::Text(body.text)))
            &&& fields.contains(("encoding"@, JsonFieldView::Text(body.encoding)))
            &&& fields.contains(("headers"@, JsonFieldView::Object(headers)))
            &&& fields.contains(("ok"@, JsonFieldView::Flag(ok)))
            &&& fields.contains(("duration_ms"@, JsonFieldView::Number(duration_ms)))
        }),
{
    let fields = envelope_fields(status, body, headers, ok, duration_ms);
    assert(fields[0] == ("status"@, JsonFieldView::Number(status as u64)));
    assert(fields[1] == ("body"@, JsonFieldView::Text(body.text)));
    assert(fields[2] == ("encoding"@, JsonFieldView::Text(body.encoding)));
    assert(fields[3] == ("headers"@, JsonFieldView::Object(headers)));
    assert(fields[4] == ("ok"@, JsonFieldView::Flag(ok)));
    assert(fields[5] == ("duration_ms"@, JsonFieldView::Number(duration_ms)));
}

/// No field of the envelope has another name or another value: whatever field
/// is named `headers` holds all headers, and so with the others.
pub proof fn law_envelope_exact(
    status: u16,
    body: ResponseBodyView,
    headers: Seq<(Seq<char>, Seq<char>)>,
    ok: bool,
    duration_ms: u64,
    i: int,
)
    requires
        0 <= i < envelope_fields(status, body, headers, ok, duration_ms).len(),
    ensures
        ({
            let (name, value) = envelope_fields(status, body, headers, ok, duration_ms)[i];
            &&& name == "status"@ || name == "body"@ || name == "encoding"@ || name == "headers"@
                || name == "ok"@ || name == "duration_ms"@
            &&& name == "status"@ ==> value == JsonFieldView::Number(status as u64)
            &&& name == "body"@ ==> value == JsonFieldView::Text(body.text)
            &&& name == "encoding"@ ==> value == JsonFieldView::Text(body.encoding)
            &&& name == "headers"@ ==> value == JsonFieldView::Object(headers)
            &&& name == "ok"@ ==> value == JsonFieldView::Flag(ok)
            &&& name == "duration_ms"@ ==> value == JsonFieldView::Number(duration_ms)
        }),
{
    reveal_strlit("status");
    reveal_strlit("body");
    reveal_strlit("encoding");
    reveal_strlit("headers");
    reveal_strlit("ok");
    reveal_strlit("duration_ms");
    let fields = envelope_fields(status, body, headers, ok, duration_ms);
    assert("status"@.len() == 6 && "body"@.len() == 4 && "encoding"@.len() == 8);
    assert("headers"@.len() == 7 && "ok"@.len() == 2 && "duration_ms"@.len() == 11);
    assert(fields[0] == ("status"@, JsonFieldView::Number(status as u64)));
    assert(fields[1] == ("body"@, JsonFieldView::Text(body.text)));
    assert(fields[2] == ("encoding"@, JsonFieldView::Text(body.encoding)));
    assert(fields[3] == ("headers"@, JsonFieldView::Object(headers)));
    assert(fields[4] == ("ok"@, JsonFieldView::Flag(ok)));
    assert(fields[5] == ("duration_ms"@, JsonFieldView::Number(duration_ms)));
    assert(i == 0 || i == 1 || i == 2 || i == 3 || i == 4 || i == 5);
}

/// A body is returned whole: text as it is, under the encoding `text`, and bytes
/// as their base64, under `base64`. The preview is the one that is given.
pub proof fn law_body_returned(text: String, bytes: Vec<u8>, preview: Seq<char>)
    ensures
        returned_body(RawBody::Text(text), preview).text == text@,
        returned_body(RawBody::Text(text), preview).encoding == "text"@,
        returned_body(RawBody::Text(text), preview).preview == preview,
        returned_body(RawBody::Binary(bytes), preview).text == standard_encoded(bytes@),
        returned_body(RawBody::Binary(bytes), preview).encoding == "base64"@,
        returned_body(RawBody::Binary(bytes), preview).preview == preview,
{
}

} // verus!
