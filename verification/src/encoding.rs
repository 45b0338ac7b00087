//! The base64 payloads of multipart parts.
use base64::Engine;
use vstd::prelude::*;
use vstd::string::*;

#[allow(unused_imports)]
use crate::laws::bodies::law_line_breaks_ignored;
use crate::text::{chars_of, is_ascii_whitespace, string_of};
#[allow(unused_imports)]
use crate::text::{ascii_whitespace, decimal};

verus! {

/// Why a part's payload is not base64.
#[derive(Clone, Copy, PartialEq, Eq, Structural, Debug)]
pub enum PartDataError {
    /// A byte outside the alphabet, with its offset.
    InvalidByte(usize, u8),
    /// The number of symbols cannot come from an encoder.
    InvalidLength(usize),
    /// The last symbol, with its offset, carries bits that would be dropped.
    InvalidLastSymbol(usize, u8),
    /// The padding is missing or wrong.
    InvalidPadding,
}

/// What the standard base64 engine decodes a text to.
pub uninterp spec fn standard_decoded(text: Seq<char>) -> Result<Seq<u8>, PartDataError>;

/// Decoded bytes as a mathematical value.
pub open spec fn decoded_view(decoded: Result<Vec<u8>, PartDataError>) -> Result<
    Seq<u8>,
    PartDataError,
> {
    match decoded {
        Ok(bytes) => Ok(bytes@),
        Err(e) => Err(e),
    }
}

/// What the standard base64 engine encodes bytes to.
pub uninterp spec fn standard_encoded(bytes: Seq<u8>) -> Seq<char>;

/// The outcome of decoding a text undoes encoding, and nothing else decodes:
/// bytes come out exactly where the text is their encoding, and an error exactly
/// where it is the encoding of no bytes.
pub open spec fn inverts_encoding(outcome: Result<Seq<u8>, PartDataError>, text: Seq<char>) -> bool {
    forall|bytes: Seq<u8>|
        #![trigger standard_encoded(bytes)]
        outcome == Ok::<Seq<u8>, PartDataError>(bytes) <==> standard_encoded(bytes) == text
}

/// Calls `base64::Engine::decode` of `base64::engine::general_purpose::STANDARD`.
/// What it returns depends on the text alone and is named `standard_decoded`;
/// each variant of `base64::DecodeError` becomes the variant of the same name.
/// The engine requires canonical padding and refuses set bits that encoding
/// would not produce, so that it accepts a text exactly where the text is the
/// encoding of what it decodes to.
#[verifier::external_body]
fn decode_standard(text: &str) -> (decoded: Result<Vec<u8>, PartDataError>)
    ensures
        decoded_view(decoded) == standard_decoded(text@),
        inverts_encoding(decoded_view(decoded), text@),
{
    match base64::engine::general_purpose::STANDARD.decode(text) {
        Ok(bytes) => Ok(bytes),
        Err(base64::DecodeError::InvalidByte(at, byte)) => Err(PartDataError::InvalidByte(at, byte)),
        Err(base64::DecodeError::InvalidLength(n)) => Err(PartDataError::InvalidLength(n)),
        Err(base64::DecodeError::InvalidLastSymbol(at, byte)) => {
            Err(PartDataError::InvalidLastSymbol(at, byte))
        },
        Err(base64::DecodeError::InvalidPadding) => Err(PartDataError::InvalidPadding),
    }
}

/// The standard base64 engine accepts a text and decodes it to these bytes.
pub open spec fn decodes_to(text: Seq<char>, bytes: Seq<u8>) -> bool {
    standard_decoded(text) == Ok::<Seq<u8>, PartDataError>(bytes)
}

/// There is no white space in a text.
pub open spec fn unbroken(text: Seq<char>) -> bool {
    forall|i: int| 0 <= i < text.len() ==> !ascii_whitespace(#[trigger] text[i])
}

/// Calls `base64::Engine::encode` of `base64::engine::general_purpose::STANDARD`.
/// What it returns depends on the bytes alone and is named `standard_encoded`.
/// The same engine decodes it back to the bytes, and none of the alphabet and
/// the padding that it is made of is white space. The bound on the length keeps
/// the text within what a string can hold.
#[verifier::external_body]
pub(crate) fn encode_standard(bytes: &Vec<u8>) -> (text: String)
    requires
        bytes@.len() <= isize::MAX / 4 * 3,
    ensures
        text@ == standard_encoded(bytes@),
        decodes_to(text@, bytes@),
        unbroken(text@),
{
    base64::engine::general_purpose::STANDARD.encode(bytes)
}

/// The words in which a decoding error is reported.
pub open spec fn decode_error_message(error: PartDataError) -> Seq<char> {
    match error {
        PartDataError::InvalidByte(at, byte) => "Invalid symbol "@ + decimal(byte as nat)
            + ", offset "@ + decimal(at as nat) + "."@,
        PartDataError::InvalidLength(n) => "Invalid input length: "@ + decimal(n as nat),
        PartDataError::InvalidLastSymbol(at, byte) => "Invalid last symbol "@ + decimal(
            byte as nat,
        ) + ", offset "@ + decimal(at as nat) + "."@,
        PartDataError::InvalidPadding => "Invalid padding"@,
    }
}

/// Calls the `Display` of `base64::DecodeError` on the error of the same name:
/// it writes the words of `decode_error_message`.
#[verifier::external_body]
pub(crate) fn decode_error_text(error: &PartDataError) -> (text: String)
    ensures
        text@ == decode_error_message(*error),
{
    let outside = match error {
        PartDataError::InvalidByte(at, byte) => base64::DecodeError::InvalidByte(*at, *byte),
        PartDataError::InvalidLength(n) => base64::DecodeError::InvalidLength(*n),
        PartDataError::InvalidLastSymbol(at, byte) => {
            base64::DecodeError::InvalidLastSymbol(*at, *byte)
        },
        PartDataError::InvalidPadding => base64::DecodeError::InvalidPadding,
    };
    outside.to_string()
}

/// A text without its ASCII white space.
pub open spec fn stripped(text: Seq<char>) -> Seq<char> {
    text.filter(|c: char| !ascii_whitespace(c))
}

/// Only white space is stripped.
pub proof fn law_unbroken_unchanged(text: Seq<char>)
    requires
        unbroken(text),
    ensures
        stripped(text) == text,
    decreases text.len(),
{
    reveal(Seq::filter);
    if text.len() > 0 {
        law_unbroken_unchanged(text.drop_last());
        assert(text.drop_last().push(text.last()) == text);
    }
}

/// Decodes a part's `data_b64` payload, tolerating ASCII white space anywhere
/// in it: line-wrapped base64, as PostgreSQL's `encode` emits it, decodes like
/// the unwrapped text. Nothing else outside the alphabet is tolerated: but for
/// white space, the payload is the encoding of the bytes that come out.
pub fn decode_part_data(data_b64: &str) -> (decoded: Result<Vec<u8>, PartDataError>)
    ensures
        decoded_view(decoded) == standard_decoded(stripped(data_b64@)),
        inverts_encoding(decoded_view(decoded), stripped(data_b64@)),
{
    let chars = chars_of(data_b64);
    let mut wrapped = false;
    let mut i: usize = 0;
    while i < chars.len() && !wrapped
        invariant
            chars@ == data_b64@,
            0 <= i <= chars@.len(),
            !wrapped ==> forall|j: int|
                0 <= j < i ==> !ascii_whitespace(#[trigger] data_b64@[j]),
        decreases chars@.len() - i,
    {
        wrapped = is_ascii_whitespace(chars[i]);
        i = i + 1;
    }
    if wrapped {
        let kept = strip(&chars);
        decode_standard(kept.as_str())
    } else {
        proof {
            law_unbroken_unchanged(data_b64@);
        }
        decode_standard(data_b64)
    }
}

fn strip(chars: &Vec<char>) -> (kept: String)
    ensures
        kept@ == stripped(chars@),
{
    reveal(Seq::filter);
    let mut kept = String::new();
    let mut i: usize = 0;
    while i < chars.len()
        invariant
            0 <= i <= chars@.len(),
            kept@ == stripped(chars@.take(i as int)),
        decreases chars@.len() - i,
    {
        reveal(Seq::filter);
        assert(chars@.take(i + 1).drop_last() == chars@.take(i as int));
        if !is_ascii_whitespace(chars[i]) {
            kept.push(chars[i]);
        }
        i = i + 1;
    }
    assert(chars@.take(i as int) == chars@);
    kept
}

/// A text broken into lines of `width` characters, with `separator` between
/// them.
pub open spec fn wrapped(text: Seq<char>, width: nat, separator: Seq<char>) -> Seq<char>
    decreases text.len(),
{
    if width == 0 || text.len() <= width {
        text
    } else {
        text.take(width as int) + separator + wrapped(text.skip(width as int), width, separator)
    }
}

/// The base64 of bytes as PostgreSQL's `encode(bytes, 'base64')` writes it, in
/// lines of 76 characters. As the payload of a part it decodes to the bytes,
/// however many lines it takes. The bound keeps the base64 within what a string
/// can hold.
pub fn encode_lines(bytes: &Vec<u8>) -> (text: String)
    requires
        bytes@.len() <= isize::MAX / 4 * 3,
    ensures
        text@ == wrapped(standard_encoded(bytes@), 76, "\n"@),
        decodes_to(stripped(text@), bytes@),
{
    let flat = encode_standard(bytes);
    let chars = chars_of(flat.as_str());
    let total: usize = chars.len();
    let mut text = String::new();
    let mut from: usize = 0;
    assert(chars@.skip(0) =~= flat@);
    while total - from > 76
        invariant
            chars@ == flat@,
            total == chars@.len(),
            0 <= from <= total,
            wrapped(flat@, 76, "\n"@) == text@ + wrapped(chars@.skip(from as int), 76, "\n"@),
        decreases total - from,
    {
        let ghost rest = chars@.skip(from as int);
        let ghost before = text@;
        let line = string_of(&chars, from, from + 76);
        text.append(line.as_str());
        text.append("\n");
        proof {
            assert(line@ =~= rest.take(76));
            assert(rest.skip(76) =~= chars@.skip(from + 76));
            assert(before + (rest.take(76) + "\n"@ + wrapped(rest.skip(76), 76, "\n"@)) =~= text@
                + wrapped(rest.skip(76), 76, "\n"@));
        }
        from = from + 76;
    }
    let line = string_of(&chars, from, total);
    assert(line@ =~= chars@.skip(from as int));
    text.append(line.as_str());
    proof {
        reveal_strlit("\n");
        law_line_breaks_ignored(flat@, 76, "\n"@);
    }
    text
}

} // verus!
