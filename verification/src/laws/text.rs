//! Laws of texts: what the words that the other laws are stated in mean.
use vstd::prelude::*;

#[allow(unused_imports)]
use crate::encoding::{
    decodes_to, inverts_encoding, standard_decoded, standard_encoded, stripped, unbroken,
    wrapped, PartDataError,
};
#[allow(unused_imports)]
use crate::text::{
    ascii_whitespace, decimal, lower, occurs_in, option_view, outcome_view, same_ignoring_case,
    stands_at,
};

verus! {

/// The number that decimal digits are read as.
pub open spec fn read_number(digits: Seq<char>) -> int
    decreases digits.len(),
{
    if digits.len() == 0 {
        0
    } else {
        10 * read_number(digits.drop_last()) + (digits.last() as int - '0' as int)
    }
}

/// A number in decimal reads back as that number, in digits alone and without a
/// leading zero.
pub proof fn law_decimal_reads_back(n: nat)
    ensures
        read_number(decimal(n)) == n,
        decimal(n).len() >= 1,
        forall|i: int| 0 <= i < decimal(n).len() ==> '0' <= #[trigger] decimal(n)[i] <= '9',
        n > 0 ==> decimal(n)[0] != '0',
    decreases n,
{
    if n < 10 {
        assert(decimal(n).drop_last() =~= Seq::<char>::empty());
        assert(read_number(Seq::<char>::empty()) == 0);
    } else {
        law_decimal_reads_back(n / 10);
        assert(decimal(n).drop_last() =~= decimal(n / 10));
    }
}

/// Different numbers are written differently.
pub proof fn law_decimal_injective(m: nat, n: nat)
    ensures
        decimal(m) == decimal(n) ==> m == n,
{
    law_decimal_reads_back(m);
    law_decimal_reads_back(n);
}

/// White space is the space, the tab, the line feed, the form feed and the
/// carriage return, and nothing else.
pub proof fn law_white_space(c: char)
    ensures
        ascii_whitespace(c) <==> c as u32 == 32 || c as u32 == 9 || c as u32 == 10 || c as u32
            == 12 || c as u32 == 13,
{
}

/// Two characters are the same letter: equal, or an ASCII letter in both cases.
pub open spec fn same_letter(a: char, b: char) -> bool {
    ||| a == b
    ||| 'A' <= a <= 'Z' && b as u32 == a as u32 + 32
    ||| 'A' <= b <= 'Z' && a as u32 == b as u32 + 32
}

/// Texts that are equal up to case have the same letters, one by one.
pub proof fn law_same_ignoring_case(a: Seq<char>, b: Seq<char>)
    ensures
        same_ignoring_case(a, b) <==> a.len() == b.len() && forall|i: int|
            0 <= i < a.len() ==> same_letter(#[trigger] a[i], b[i]),
{
    assert forall|x: char, y: char| (#[trigger] lower(x) == #[trigger] lower(y)) == same_letter(
        x,
        y,
    ) by {}
    if same_ignoring_case(a, b) {
        assert forall|i: int| 0 <= i < a.len() implies same_letter(#[trigger] a[i], b[i]) by {
            assert(lower(a[i]) == lower(b[i]));
        }
    }
    if a.len() == b.len() && forall|i: int| 0 <= i < a.len() ==> same_letter(#[trigger] a[i], b[i]) {
        assert forall|i: int| 0 <= i < a.len() implies lower(#[trigger] a[i]) == lower(b[i]) by {
            assert(same_letter(a[i], b[i]));
        }
    }
}

/// A text stands in another where the characters agree from there on.
pub proof fn law_stands_at(text: Seq<char>, needle: Seq<char>, at: int)
    ensures
        stands_at(text, needle, at) <==> 0 <= at && at + needle.len() <= text.len() && forall|
            i: int,
        |
            0 <= i < needle.len() ==> text[at + i] == #[trigger] needle[i],
{
    if 0 <= at && at + needle.len() <= text.len() {
        let there = text.subrange(at, at + needle.len());
        if stands_at(text, needle, at) {
            assert forall|i: int| 0 <= i < needle.len() implies text[at + i]
                == #[trigger] needle[i] by {
                assert(there[i] == text[at + i]);
            }
        }
        if forall|i: int| 0 <= i < needle.len() ==> text[at + i] == #[trigger] needle[i] {
            assert(there =~= needle);
        }
    }
}

/// A text occurs in another where the other is made of something, that text and
/// something more.
pub proof fn law_occurs_in(needle: Seq<char>, text: Seq<char>)
    ensures
        occurs_in(needle, text) <==> exists|before: Seq<char>, after: Seq<char>|
            text == #[trigger] (before + needle + after),
{
    if occurs_in(needle, text) {
        let at = choose|at: int| stands_at(text, needle, at);
        let before = text.take(at);
        let after = text.skip(at + needle.len());
        assert(text =~= before + text.subrange(at, at + needle.len()) + after);
        assert(text == before + needle + after);
    }
    if exists|before: Seq<char>, after: Seq<char>| text == #[trigger] (before + needle + after) {
        let (before, after) = choose|before: Seq<char>, after: Seq<char>|
            text == #[trigger] (before + needle + after);
        let at = before.len() as int;
        assert(text.subrange(at, at + needle.len()) =~= needle);
        assert(stands_at(text, needle, at));
    }
}

/// A text has no white space in it where none of its characters is any.
pub proof fn law_unbroken(text: Seq<char>)
    ensures
        unbroken(text) <==> forall|i: int|
            0 <= i < text.len() ==> {
                let c = #[trigger] text[i];
                c != ' ' && c != '\t' && c != '\n' && c != '\x0C' && c != '\r'
            },
{
}

/// Stripping a character leaves nothing of white space and anything else as it
/// is.
pub proof fn law_stripped_one(c: char)
    ensures
        stripped(seq![c]) == (if c == ' ' || c == '\t' || c == '\n' || c == '\x0C' || c == '\r' {
            Seq::<char>::empty()
        } else {
            seq![c]
        }),
        stripped(Seq::empty()) == Seq::<char>::empty(),
{
    reveal(Seq::filter);
    assert(seq![c].drop_last() =~= Seq::<char>::empty());
    assert(stripped(seq![c].drop_last()) =~= Seq::<char>::empty());
    assert(Seq::<char>::empty().push(c) =~= seq![c]);
}

/// Breaking a text into lines takes off lines of the width, one after the
/// other, until what is left is a line.
pub proof fn law_lines(line: Seq<char>, rest: Seq<char>, separator: Seq<char>)
    requires
        line.len() > 0,
    ensures
        wrapped(line, line.len(), separator) == line,
        rest.len() <= line.len() ==> wrapped(rest, line.len(), separator) == rest,
        rest.len() > 0 ==> wrapped(line + rest, line.len(), separator) == line + separator
            + wrapped(rest, line.len(), separator),
{
    let text = line + rest;
    assert(text.take(line.len() as int) =~= line);
    assert(text.skip(line.len() as int) =~= rest);
}

/// Optional texts and outcomes are what they hold.
pub proof fn law_texts_viewed(text: Option<String>, outcome: Result<(), String>)
    ensures
        match text {
            Some(t) => option_view(text) == Some(t@),
            None => option_view(text) is None,
        },
        match outcome {
            Ok(()) => outcome_view(outcome) is Ok,
            Err(e) => outcome_view(outcome) == Err::<(), Seq<char>>(e@),
        },
{
}

/// What decoding gives undoes encoding: bytes come out exactly where the text is
/// their encoding.
pub proof fn law_decoding_undoes_encoding(
    outcome: Result<Seq<u8>, PartDataError>,
    text: Seq<char>,
    bytes: Seq<u8>,
)
    ensures
        inverts_encoding(outcome, text) ==> (outcome == Ok::<Seq<u8>, PartDataError>(bytes)
            <==> standard_encoded(bytes) == text),
        decodes_to(text, bytes) <==> standard_decoded(text) == Ok::<Seq<u8>, PartDataError>(
            bytes,
        ),
{
}

} // verus!
