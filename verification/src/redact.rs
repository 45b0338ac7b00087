//! Redaction: what may be shown of a URL in a log line or an error. The query
//! string of a URL is a credential carrier, and logs and errors outlive the
//! request.
use vstd::prelude::*;
use vstd::string::*;

use crate::text::{chars_of, decimal_text, is_ascii_whitespace, same_text, stands, string_of};
#[allow(unused_imports)]
use crate::text::{ascii_whitespace, decimal, stands_at};
use crate::url::{parse_url, ParsedUrl};
#[allow(unused_imports)]
use crate::url::{parse_view, parsed_url, UrlView};

verus! {

/// What stands in place of anything that is not shown.
pub open spec fn mask() -> Seq<char> {
    "<redacted>"@
}

/// How many characters stand before the first `stop`.
pub open spec fn length_before(text: Seq<char>, stop: char) -> nat
    decreases text.len(),
{
    if text.len() == 0 || text[0] == stop {
        0
    } else {
        1 + length_before(text.skip(1), stop)
    }
}

/// Query parameters whose values are shown.
pub open spec fn benign(name: Seq<char>) -> bool {
    name == "api-version"@ || name == "apiversion"@ || name == "comp"@ || name == "restype"@
}

/// What is shown of one `name=value` piece of a query: the name, and the value
/// of a benign parameter. A piece without `=` is not shown at all.
pub open spec fn redacted_piece(piece: Seq<char>) -> Seq<char> {
    let n = length_before(piece, '=') as int;
    if n >= piece.len() {
        mask()
    } else if benign(piece.take(n)) {
        piece
    } else {
        piece.take(n) + "="@ + mask()
    }
}

/// What is shown of a query: that of its pieces, between the same `&`.
pub open spec fn redacted_query(query: Seq<char>) -> Seq<char>
    decreases query.len(),
{
    let n = length_before(query, '&') as int;
    if n >= query.len() {
        redacted_piece(query)
    } else {
        redacted_piece(query.take(n)) + "&"@ + redacted_query(query.skip(n + 1))
    }
}

/// The URL carries a user name or a password.
pub open spec fn has_userinfo(url: UrlView) -> bool {
    url.username.len() > 0 || url.password is Some
}

/// The authority as it is shown: host and port, the user information masked.
pub open spec fn redacted_authority(url: UrlView) -> Seq<char> {
    let user = if has_userinfo(url) {
        mask() + "@"@
    } else {
        Seq::<char>::empty()
    };
    let host = match url.host {
        Some(host) => host,
        None => Seq::<char>::empty(),
    };
    let port = match url.port {
        Some(port) => ":"@ + decimal(port as nat),
        None => Seq::<char>::empty(),
    };
    user + host + port
}

/// What is shown of a parsed URL: scheme, host, port and path, the names of
/// its query parameters, and nothing of its user information and fragment.
pub open spec fn redacted(url: UrlView) -> Seq<char> {
    let authority = if url.has_authority {
        "://"@ + redacted_authority(url)
    } else {
        ":"@
    };
    let query = match url.query {
        Some(query) => "?"@ + redacted_query(query),
        None => Seq::<char>::empty(),
    };
    let fragment = match url.fragment {
        Some(_) => "#"@ + mask(),
        None => Seq::<char>::empty(),
    };
    url.scheme + authority + url.path + query + fragment
}

/// What is shown of a text, given what it parsed to: nothing where it did not.
pub open spec fn redacted_parse(parsed: Result<UrlView, Seq<char>>) -> Seq<char> {
    match parsed {
        Ok(url) => redacted(url),
        Err(_) => mask(),
    }
}

/// What is shown of a text that should be a URL.
pub open spec fn redacted_url(text: Seq<char>) -> Seq<char> {
    redacted_parse(parsed_url(text))
}

/// The position of the first `stop` between `from` and `to`, or `to`.
fn find_char(chars: &Vec<char>, from: usize, to: usize, stop: char) -> (at: usize)
    requires
        from <= to <= chars@.len(),
    ensures
        from <= at <= to,
        at - from == length_before(chars@.subrange(from as int, to as int), stop),
{
    let mut at: usize = from;
    while at < to && chars[at] != stop
        invariant
            from <= at <= to <= chars@.len(),
            length_before(chars@.subrange(from as int, to as int), stop) == (at - from)
                + length_before(chars@.subrange(at as int, to as int), stop),
        decreases to - at,
    {
        assert(chars@.subrange(at as int, to as int).skip(1) == chars@.subrange(
            at + 1,
            to as int,
        ));
        at = at + 1;
    }
    at
}

fn is_benign(name: &str) -> (shown: bool)
    ensures
        shown == benign(name@),
{
    same_text(name, "api-version") || same_text(name, "apiversion") || same_text(name, "comp")
        || same_text(name, "restype")
}

/// Appends what is shown of the piece from `from` to `to`.
fn show_piece(shown: &mut String, chars: &Vec<char>, from: usize, to: usize)
    requires
        from <= to <= chars@.len(),
    ensures
        final(shown)@ == old(shown)@ + redacted_piece(chars@.subrange(from as int, to as int)),
{
    let ghost piece = chars@.subrange(from as int, to as int);
    let stop: usize = find_char(chars, from, to, '=');
    if stop == to {
        shown.append("<redacted>");
        return;
    }
    let name = string_of(chars, from, stop);
    assert(name@ == piece.take(stop - from));
    if is_benign(name.as_str()) {
        shown.append(string_of(chars, from, to).as_str());
    } else {
        shown.append(name.as_str());
        shown.append("=");
        shown.append("<redacted>");
        assert(shown@ == old(shown)@ + (piece.take(stop - from) + "="@ + mask()));
    }
}

/// Appends what is shown of a query.
fn show_query(shown: &mut String, query: &str)
    ensures
        final(shown)@ == old(shown)@ + redacted_query(query@),
{
    let chars = chars_of(query);
    let total: usize = chars.len();
    let ghost before = shown@;
    let mut from: usize = 0;
    let mut stop: usize = find_char(&chars, 0, total, '&');
    assert(chars@.subrange(0, total as int) == query@);
    while stop < total
        invariant
            chars@ == query@,
            total == chars@.len(),
            from <= stop <= total,
            stop - from == length_before(chars@.subrange(from as int, total as int), '&'),
            before + redacted_query(query@) == shown@ + redacted_query(
                chars@.subrange(from as int, total as int),
            ),
        decreases total - stop,
    {
        let ghost rest = chars@.subrange(from as int, total as int);
        let ghost shown_before = shown@;
        show_piece(shown, &chars, from, stop);
        shown.append("&");
        assert(rest.take(stop - from) == chars@.subrange(from as int, stop as int));
        assert(rest.skip(stop - from + 1) == chars@.subrange(stop + 1, total as int));
        assert(shown_before + (redacted_piece(rest.take(stop - from)) + "&"@ + redacted_query(
            rest.skip(stop - from + 1),
        )) == shown@ + redacted_query(rest.skip(stop - from + 1)));
        from = stop + 1;
        stop = find_char(&chars, from, total, '&');
    }
    show_piece(shown, &chars, from, total);
}

/// Shows a parsed URL.
pub fn redact_parsed(url: &ParsedUrl) -> (shown: String)
    ensures
        shown@ == redacted(url@),
{
    let mut shown = url.scheme.clone();
    if url.has_authority {
        shown.append("://");
        if !url.username.as_str().is_empty() || url.password.is_some() {
            shown.append("<redacted>");
            shown.append("@");
        }
        if let Some(host) = &url.host {
            shown.append(host.as_str());
        }
        if let Some(port) = url.port {
            shown.append(":");
            shown.append(decimal_text(port as u64).as_str());
        }
    } else {
        shown.append(":");
    }
    assert(shown@ == url@.scheme + (if url@.has_authority {
        "://"@ + redacted_authority(url@)
    } else {
        ":"@
    }));
    shown.append(url.path.as_str());
    let ghost whole = shown@;
    if let Some(query) = &url.query {
        shown.append("?");
        show_query(&mut shown, query.as_str());
        assert(shown@ == whole + ("?"@ + redacted_query(query@)));
    }
    let ghost whole = shown@;
    if url.fragment.is_some() {
        shown.append("#");
        shown.append("<redacted>");
        assert(shown@ == whole + ("#"@ + mask()));
    }
    assert(shown@ == redacted(url@));
    shown
}

/// Shows a text, given what it parsed to. Fails closed: a text that does not
/// parse is not shown at all.
pub fn redact_parse(parsed: &Result<ParsedUrl, String>) -> (shown: String)
    ensures
        shown@ == redacted_parse(parse_view(*parsed)),
{
    match parsed {
        Ok(url) => redact_parsed(url),
        Err(_) => "<redacted>".to_owned(),
    }
}

/// Shows a text that should be a URL.
pub fn redact_url(text: &str) -> (shown: String)
    ensures
        shown@ == redacted_url(text@),
{
    redact_parse(&parse_url(text))
}

/// A URL starts here.
pub open spec fn url_starts(text: Seq<char>) -> bool {
    stands_at(text, "http://"@, 0) || stands_at(text, "https://"@, 0)
}

/// How many characters stand before the first white space.
pub open spec fn run_length(text: Seq<char>) -> nat
    decreases text.len(),
{
    if text.len() == 0 || ascii_whitespace(text[0]) {
        0
    } else {
        1 + run_length(text.skip(1))
    }
}

/// The length of the URL that a text starts with. A URL reaches up to white
/// space, since any other character may belong to it; only where a round
/// bracket opens right before the URL, the bracket that closes at its end does
/// not.
pub open spec fn url_length(text: Seq<char>, opened: bool) -> nat {
    let n = run_length(text);
    if opened && n > 0 && text[n - 1] == ')' {
        (n - 1) as nat
    } else {
        n
    }
}

proof fn lemma_run_length(text: Seq<char>, n: nat)
    requires
        n <= text.len(),
        forall|i: int| 0 <= i < n ==> !ascii_whitespace(#[trigger] text[i]),
    ensures
        n <= run_length(text) <= text.len(),
    decreases text.len(),
{
    if text.len() > 0 {
        let rest = text.skip(1);
        assert forall|i: int| 0 <= i < n - 1 implies !ascii_whitespace(#[trigger] rest[i]) by {
            assert(rest[i] == text[i + 1]);
        }
        lemma_run_length(rest, (if n > 0 { n - 1 } else { 0 }) as nat);
    }
}

/// Where a URL starts, it is at least as long as its `http://`.
pub proof fn lemma_url_length(text: Seq<char>, opened: bool)
    requires
        url_starts(text),
    ensures
        7 <= url_length(text, opened) <= text.len(),
{
    reveal_strlit("http://");
    reveal_strlit("https://");
    assert forall|i: int| 0 <= i < 7 implies !ascii_whitespace(#[trigger] text[i]) by {
        if stands_at(text, "http://"@, 0) {
            assert(text[i] == text.subrange(0, 7)[i]);
        } else {
            assert(text[i] == text.subrange(0, 8)[i]);
        }
    }
    assert(text[6] == '/') by {
        if stands_at(text, "http://"@, 0) {
            assert(text[6] == text.subrange(0, 7)[6]);
        } else {
            assert(text[6] == text.subrange(0, 8)[6]);
        }
    }
    lemma_run_length(text, 7);
}

/// The rest of a text with each URL in it replaced by what is shown of that URL;
/// `opened` says that a round bracket stands right before the rest.
pub open spec fn redacted_rest(text: Seq<char>, opened: bool) -> Seq<char>
    decreases text.len(),
{
    if text.len() == 0 {
        text
    } else if url_starts(text) {
        let n = url_length(text, opened) as int;
        proof {
            lemma_url_length(text, opened);
        }
        redacted_url(text.take(n)) + redacted_rest(text.skip(n), false)
    } else {
        seq![text[0]] + redacted_rest(text.skip(1), text[0] == '(')
    }
}

/// A text with each URL in it replaced by what is shown of that URL.
pub open spec fn redacted_text(text: Seq<char>) -> Seq<char> {
    redacted_rest(text, false)
}

/// The end of the run without white space that starts at `from`.
fn find_blank(chars: &Vec<char>, from: usize) -> (at: usize)
    requires
        from <= chars@.len(),
    ensures
        from <= at <= chars@.len(),
        at - from == run_length(chars@.skip(from as int)),
{
    let mut at: usize = from;
    while at < chars.len() && !is_ascii_whitespace(chars[at])
        invariant
            from <= at <= chars@.len(),
            run_length(chars@.skip(from as int)) == (at - from) + run_length(
                chars@.skip(at as int),
            ),
        decreases chars@.len() - at,
    {
        assert(chars@.skip(at as int).skip(1) == chars@.skip(at + 1));
        at = at + 1;
    }
    at
}

/// The end of the URL that starts at `from`.
fn find_url_end(chars: &Vec<char>, from: usize, opened: bool) -> (at: usize)
    requires
        from <= chars@.len(),
        url_starts(chars@.skip(from as int)),
    ensures
        from < at <= chars@.len(),
        at - from == url_length(chars@.skip(from as int), opened),
{
    let ghost rest = chars@.skip(from as int);
    proof {
        lemma_url_length(rest, opened);
    }
    let at: usize = find_blank(chars, from);
    assert(rest[at - from - 1] == chars@[at - 1]);
    if opened && chars[at - 1] == ')' {
        at - 1
    } else {
        at
    }
}

/// Whether a needle stands at a position can be seen from there on.
pub proof fn lemma_stands_from(text: Seq<char>, needle: Seq<char>, at: int)
    requires
        0 <= at <= text.len(),
    ensures
        stands_at(text, needle, at) == stands_at(text.skip(at), needle, 0),
{
    if at + needle.len() <= text.len() {
        assert(text.subrange(at, at + needle.len()) =~= text.skip(at).subrange(
            0,
            needle.len() as int,
        ));
    }
}

/// Shows an error text: each URL in it is replaced by what is shown of it.
pub fn redact_urls_in(text: &str) -> (shown: String)
    ensures
        shown@ == redacted_text(text@),
{
    let chars = chars_of(text);
    let plain = chars_of("http://");
    let secure = chars_of("https://");
    let mut shown = String::new();
    let mut at: usize = 0;
    let mut opened = false;
    assert(chars@.skip(0) == text@);
    while at < chars.len()
        invariant
            chars@ == text@,
            plain@ == "http://"@,
            secure@ == "https://"@,
            0 <= at <= chars@.len(),
            redacted_text(text@) == shown@ + redacted_rest(chars@.skip(at as int), opened),
        decreases chars@.len() - at,
    {
        let ghost rest = chars@.skip(at as int);
        let ghost before = shown@;
        proof {
            lemma_stands_from(chars@, "http://"@, at as int);
            lemma_stands_from(chars@, "https://"@, at as int);
        }
        if stands(&chars, &plain, at) || stands(&chars, &secure, at) {
            let end: usize = find_url_end(&chars, at, opened);
            let url = string_of(&chars, at, end);
            shown.append(redact_url(url.as_str()).as_str());
            assert(url@ == rest.take(end - at));
            assert(chars@.skip(end as int) == rest.skip(end - at));
            assert(before + (redacted_url(rest.take(end - at)) + redacted_rest(
                rest.skip(end - at),
                false,
            )) == shown@ + redacted_rest(rest.skip(end - at), false));
            at = end;
            opened = false;
        } else {
            let c: char = chars[at];
            shown.push(c);
            assert(chars@.skip(at + 1) == rest.skip(1));
            assert(before + (seq![c] + redacted_rest(rest.skip(1), c == '(')) == shown@
                + redacted_rest(rest.skip(1), c == '('));
            at = at + 1;
            opened = c == '(';
        }
    }
    shown
}

/// How many characters stand before the first place where `url` does; all of
/// them where it stands nowhere.
pub open spec fn length_until(text: Seq<char>, url: Seq<char>) -> nat
    decreases text.len(),
{
    if text.len() == 0 || stands_at(text, url, 0) {
        0
    } else {
        1 + length_until(text.skip(1), url)
    }
}

/// Where the count stops short of the end, the URL stands there.
pub proof fn lemma_length_until(text: Seq<char>, url: Seq<char>)
    ensures
        length_until(text, url) <= text.len(),
        length_until(text, url) < text.len() ==> stands_at(
            text,
            url,
            length_until(text, url) as int,
        ),
    decreases text.len(),
{
    if text.len() > 0 && !stands_at(text, url, 0) {
        let rest = text.skip(1);
        let n = length_until(rest, url) as int;
        lemma_length_until(rest, url);
        lemma_stands_from(rest, url, n);
        lemma_stands_from(text, url, n + 1);
        assert(rest.skip(n) =~= text.skip(n + 1));
    }
}

/// What stands in a text around a URL: the pieces before, between and after the
/// places where the URL does.
pub open spec fn around(text: Seq<char>, url: Seq<char>) -> Seq<Seq<char>>
    decreases text.len(),
{
    let n = length_until(text, url) as int;
    if url.len() == 0 || n >= text.len() {
        seq![text]
    } else {
        proof {
            lemma_length_until(text, url);
        }
        seq![text.take(n)] + around(text.skip(n + url.len()), url)
    }
}

/// There is always a piece.
pub proof fn lemma_around_nonempty(text: Seq<char>, url: Seq<char>)
    ensures
        around(text, url).len() >= 1,
{
}

/// Pieces of a text, redacted, with `safe_url` between them.
pub open spec fn rejoined(pieces: Seq<Seq<char>>, safe_url: Seq<char>) -> Seq<char>
    decreases pieces.len(),
{
    if pieces.len() == 0 {
        Seq::empty()
    } else if pieces.len() == 1 {
        redacted_text(pieces[0])
    } else {
        redacted_text(pieces[0]) + safe_url + rejoined(pieces.skip(1), safe_url)
    }
}

/// An error text on a request for `url`: wherever the URL is quoted, `safe_url`
/// stands in its place, and other URLs are redacted.
pub open spec fn redacted_report(text: Seq<char>, url: Seq<char>, safe_url: Seq<char>) -> Seq<
    char,
> {
    rejoined(around(text, url), safe_url)
}

/// The first position from `from` on where `url` stands, or the end.
fn find_text(chars: &Vec<char>, url: &Vec<char>, from: usize) -> (at: usize)
    requires
        from <= chars@.len(),
    ensures
        from <= at <= chars@.len(),
        at - from == length_until(chars@.skip(from as int), url@),
{
    let mut at: usize = from;
    while at < chars.len()
        invariant
            from <= at <= chars@.len(),
            length_until(chars@.skip(from as int), url@) == (at - from) + length_until(
                chars@.skip(at as int),
                url@,
            ),
        decreases chars@.len() - at,
    {
        proof {
            lemma_stands_from(chars@, url@, at as int);
            assert(chars@.skip(at as int).skip(1) =~= chars@.skip(at + 1));
        }
        if stands(chars, url, at) {
            return at;
        }
        at = at + 1;
    }
    at
}

/// Shows an error text on a request for `url`.
pub fn redact_report(text: &str, url: &str, safe_url: &str) -> (shown: String)
    ensures
        shown@ == redacted_report(text@, url@, safe_url@),
{
    let wanted = chars_of(url);
    if wanted.len() == 0 {
        return redact_urls_in(text);
    }
    let chars = chars_of(text);
    let total: usize = chars.len();
    let mut shown = String::new();
    let mut from: usize = 0;
    let mut at: usize = find_text(&chars, &wanted, 0);
    assert(chars@.skip(0) == text@);
    while at < total
        invariant
            chars@ == text@,
            wanted@ == url@,
            url@.len() > 0,
            total == chars@.len(),
            from <= at <= total,
            at - from == length_until(chars@.skip(from as int), url@),
            redacted_report(text@, url@, safe_url@) == shown@ + redacted_report(
                chars@.skip(from as int),
                url@,
                safe_url@,
            ),
        decreases total - at,
    {
        let ghost rest = chars@.skip(from as int);
        let ghost before = shown@;
        proof {
            lemma_length_until(rest, url@);
        }
        let next: usize = at + wanted.len();
        let piece = string_of(&chars, from, at);
        shown.append(redact_urls_in(piece.as_str()).as_str());
        shown.append(safe_url);
        proof {
            let pieces = around(rest, url@);
            let others = around(chars@.skip(next as int), url@);
            assert(piece@ =~= rest.take(at - from));
            assert(rest.skip(at - from + url@.len()) =~= chars@.skip(next as int));
            lemma_around_nonempty(chars@.skip(next as int), url@);
            assert(pieces[0] == piece@);
            assert(pieces.skip(1) =~= others);
            assert(before + (redacted_text(piece@) + safe_url@ + rejoined(others, safe_url@))
                =~= shown@ + rejoined(others, safe_url@));
        }
        from = next;
        at = find_text(&chars, &wanted, from);
    }
    let piece = string_of(&chars, from, total);
    assert(piece@ =~= chars@.skip(from as int));
    shown.append(redact_urls_in(piece.as_str()).as_str());
    shown
}

} // verus!
