//! Laws of redaction: what of a URL can be seen, and what cannot.
use vstd::prelude::*;

#[allow(unused_imports)]
use crate::activities::exchange::{
    authorized, completed, completion_line, failure_line, failure_message, first_refusal,
    pending, refusal, sent, ResponseView, SendFailureView, SentView,
};
#[allow(unused_imports)]
use crate::activities::replay::{run, AnswersView, ReplyView};
#[allow(unused_imports)]
use crate::encoding::unbroken;
#[allow(unused_imports)]
use crate::redact::{
    around, lemma_around_nonempty, lemma_length_until, lemma_stands_from, length_before,
    length_until, redacted, redacted_piece, redacted_query, redacted_report, redacted_rest,
    redacted_text, redacted_url, run_length, url_length,
};
#[allow(unused_imports)]
use crate::ssrf::HttpPolicy;
#[allow(unused_imports)]
use crate::text::{ascii_whitespace, decimal, occurs_in, stands_at};
#[allow(unused_imports)]
use crate::types::JobView;
#[allow(unused_imports)]
use crate::url::{parsed_url, UrlView};

verus! {

/// The `name=value` pieces of a query.
pub open spec fn pieces(query: Seq<char>) -> Seq<Seq<char>>
    decreases query.len(),
{
    let n = length_before(query, '&') as int;
    if n >= query.len() {
        seq![query]
    } else {
        seq![query.take(n)] + pieces(query.skip(n + 1))
    }
}

/// The parameters whose values may be seen.
pub open spec fn seen_parameter(name: Seq<char>) -> bool {
    ||| name == "api-version"@
    ||| name == "apiversion"@
    ||| name == "comp"@
    ||| name == "restype"@
}

/// A URL for the web starts here.
pub open spec fn web_url(text: Seq<char>) -> bool {
    stands_at(text, "http://"@, 0) || stands_at(text, "https://"@, 0)
}

/// Two pieces that differ at most in what is secret: both are bare tokens, or
/// they have the same name and, where the value may be seen, the same value.
pub open spec fn alike_pieces(a: Seq<char>, b: Seq<char>) -> bool {
    let n = length_before(a, '=') as int;
    let m = length_before(b, '=') as int;
    ||| n >= a.len() && m >= b.len()
    ||| n < a.len() && m < b.len() && a.take(n) == b.take(m) && (seen_parameter(
        a.take(n),
    ) ==> a == b)
}

/// Two queries that differ at most in what is secret.
pub open spec fn alike_queries(a: Seq<char>, b: Seq<char>) -> bool {
    &&& pieces(a).len() == pieces(b).len()
    &&& forall|i: int|
        0 <= i < pieces(a).len() ==> alike_pieces(#[trigger] pieces(a)[i], pieces(b)[i])
}

/// Two URLs that differ at most in what is secret: user information, fragment
/// and the values of query parameters.
pub open spec fn alike_urls(a: UrlView, b: UrlView) -> bool {
    &&& a.scheme == b.scheme
    &&& a.has_authority == b.has_authority
    &&& (a.username.len() > 0 || a.password is Some) == (b.username.len() > 0 || b.password is Some)
    &&& a.host == b.host
    &&& a.domain == b.domain
    &&& a.port == b.port
    &&& a.path == b.path
    &&& a.fragment is Some == b.fragment is Some
    &&& match (a.query, b.query) {
        (None, None) => true,
        (Some(q), Some(r)) => alike_queries(q, r),
        _ => false,
    }
}

proof fn lemma_pieces_nonempty(query: Seq<char>)
    ensures
        pieces(query).len() >= 1,
    decreases query.len(),
{
    let n = length_before(query, '&') as int;
    if n < query.len() {
        lemma_pieces_nonempty(query.skip(n + 1));
    }
}

/// The values of query parameters are not shown, except those of benign ones.
pub proof fn law_query_values_unseen(a: Seq<char>, b: Seq<char>)
    requires
        alike_queries(a, b),
    ensures
        redacted_query(a) == redacted_query(b),
    decreases a.len(),
{
    let n = length_before(a, '&') as int;
    let m = length_before(b, '&') as int;
    assert(alike_pieces(pieces(a)[0], pieces(b)[0]));
    if n < a.len() {
        lemma_pieces_nonempty(a.skip(n + 1));
    }
    if m < b.len() {
        lemma_pieces_nonempty(b.skip(m + 1));
    }
    if n < a.len() {
        let rest = a.skip(n + 1);
        let other = b.skip(m + 1);
        assert forall|i: int| 0 <= i < pieces(rest).len() implies alike_pieces(
            #[trigger] pieces(rest)[i],
            pieces(other)[i],
        ) by {
            assert(pieces(a)[i + 1] == pieces(rest)[i]);
            assert(pieces(b)[i + 1] == pieces(other)[i]);
        }
        law_query_values_unseen(rest, other);
    }
}

/// Two URLs that differ at most in what is secret are shown alike.
pub proof fn law_secrets_unseen(a: UrlView, b: UrlView)
    requires
        alike_urls(a, b),
    ensures
        redacted(a) == redacted(b),
{
    if let (Some(q), Some(r)) = (a.query, b.query) {
        law_query_values_unseen(q, r);
    }
}

/// A text that does not parse as a URL is not shown at all.
pub proof fn law_unparseable_unseen(text: Seq<char>)
    requires
        parsed_url(text) is Err,
    ensures
        redacted_url(text) == "<redacted>"@,
{
}

proof fn lemma_length_before(text: Seq<char>, stop: char)
    ensures
        length_before(text, stop) <= text.len(),
        forall|i: int| 0 <= i < length_before(text, stop) ==> #[trigger] text[i] != stop,
        length_before(text, stop) < text.len() ==> text[length_before(text, stop) as int] == stop,
    decreases text.len(),
{
    if text.len() > 0 && text[0] != stop {
        let rest = text.skip(1);
        lemma_length_before(rest, stop);
        assert forall|i: int| 0 <= i < length_before(text, stop) implies #[trigger] text[i]
            != stop by {
            if i > 0 {
                assert(text[i] == rest[i - 1]);
            }
        }
    }
}

proof fn lemma_length_before_is(text: Seq<char>, stop: char, n: int)
    requires
        0 <= n <= text.len(),
        forall|i: int| 0 <= i < n ==> #[trigger] text[i] != stop,
        n < text.len() ==> text[n] == stop,
    ensures
        length_before(text, stop) == n,
    decreases text.len(),
{
    if n > 0 {
        let rest = text.skip(1);
        assert forall|i: int| 0 <= i < n - 1 implies #[trigger] rest[i] != stop by {
            assert(rest[i] == text[i + 1]);
        }
        lemma_length_before_is(rest, stop, n - 1);
    }
}

proof fn lemma_shown_piece_whole(piece: Seq<char>)
    requires
        forall|i: int| 0 <= i < piece.len() ==> #[trigger] piece[i] != '&',
    ensures
        forall|i: int|
            0 <= i < redacted_piece(piece).len() ==> #[trigger] redacted_piece(piece)[i] != '&',
{
    reveal_strlit("<redacted>");
    reveal_strlit("=");
    lemma_length_before(piece, '=');
}

/// The pieces of what is shown of a query are what is shown of its pieces: the
/// names of all parameters can be seen, in their order.
pub proof fn law_query_names_shown(query: Seq<char>)
    ensures
        pieces(redacted_query(query)) == pieces(query).map_values(|p: Seq<char>| redacted_piece(p)),
    decreases query.len(),
{
    let shown = redacted_query(query);
    let n = length_before(query, '&') as int;
    lemma_length_before(query, '&');
    if n >= query.len() {
        lemma_shown_piece_whole(query);
        lemma_length_before_is(shown, '&', shown.len() as int);
        assert(pieces(shown) =~= pieces(query).map_values(|p: Seq<char>| redacted_piece(p)));
    } else {
        let first = query.take(n);
        let rest = query.skip(n + 1);
        reveal_strlit("&");
        lemma_shown_piece_whole(first);
        let k = redacted_piece(first).len() as int;
        assert forall|i: int| 0 <= i < k implies #[trigger] shown[i] != '&' by {
            assert(shown[i] == redacted_piece(first)[i]);
        }
        lemma_length_before_is(shown, '&', k);
        assert(shown.take(k) =~= redacted_piece(first));
        assert(shown.skip(k + 1) =~= redacted_query(rest));
        law_query_names_shown(rest);
        assert(pieces(shown) =~= pieces(query).map_values(|p: Seq<char>| redacted_piece(p)));
    }
}

/// What is shown of a parameter starts with its name; a benign one is shown
/// whole.
pub proof fn law_names_and_benign_values_shown(name: Seq<char>, value: Seq<char>)
    requires
        forall|i: int| 0 <= i < name.len() ==> #[trigger] name[i] != '=',
    ensures
        redacted_piece(name + "="@ + value) == (if seen_parameter(name) {
            name + "="@ + value
        } else {
            name + "="@ + "<redacted>"@
        }),
{
    let piece = name + "="@ + value;
    reveal_strlit("=");
    assert forall|i: int| 0 <= i < name.len() implies #[trigger] piece[i] != '=' by {
        assert(piece[i] == name[i]);
    }
    lemma_length_before_is(piece, '=', name.len() as int);
    assert(piece.take(name.len() as int) =~= name);
}

/// What is shown of a query in two parts is what is shown of the parts.
pub proof fn law_query_joined(a: Seq<char>, b: Seq<char>)
    ensures
        redacted_query(a + "&"@ + b) == redacted_query(a) + "&"@ + redacted_query(b),
    decreases a.len(),
{
    reveal_strlit("&");
    let whole = a + "&"@ + b;
    let n = length_before(a, '&') as int;
    lemma_length_before(a, '&');
    assert forall|i: int| 0 <= i < n implies #[trigger] whole[i] != '&' by {
        assert(whole[i] == a[i]);
    }
    assert(whole[n] == '&') by {
        if n < a.len() {
            assert(whole[n] == a[n]);
        }
    }
    lemma_length_before_is(whole, '&', n);
    if n >= a.len() {
        assert(whole.take(n) =~= a);
        assert(whole.skip(n + 1) =~= b);
    } else {
        let rest = a.skip(n + 1);
        assert(whole.take(n) =~= a.take(n));
        assert(whole.skip(n + 1) =~= rest + "&"@ + b);
        law_query_joined(rest, b);
        assert(redacted_piece(a.take(n)) + "&"@ + (redacted_query(rest) + "&"@ + redacted_query(b))
            =~= redacted_piece(a.take(n)) + "&"@ + redacted_query(rest) + "&"@ + redacted_query(
            b,
        ));
    }
}

/// A parameter is shown with its value where its name is one of four, and with
/// its value masked under every other name.
pub proof fn law_parameter_shown(name: Seq<char>, value: Seq<char>)
    requires
        !name.contains('='),
        !name.contains('&'),
        !value.contains('&'),
    ensures
        redacted_query(name + "="@ + value) == (if name == "api-version"@ || name
            == "apiversion"@ || name == "comp"@ || name == "restype"@ {
            name + "="@ + value
        } else {
            name + "="@ + "<redacted>"@
        }),
{
    let piece = name + "="@ + value;
    reveal_strlit("=");
    assert forall|i: int| 0 <= i < name.len() implies #[trigger] name[i] != '=' by {
        assert(name.contains(name[i]));
    }
    law_names_and_benign_values_shown(name, value);
    assert forall|i: int| 0 <= i < piece.len() implies #[trigger] piece[i] != '&' by {
        if i < name.len() {
            assert(name.contains(piece[i]));
        } else if i > name.len() {
            assert(piece[i] == value[i - name.len() - 1]);
            assert(value.contains(piece[i]));
        }
    }
    lemma_length_before_is(piece, '&', piece.len() as int);
}

/// A bare token of a query is masked whole.
pub proof fn law_bare_token_masked(token: Seq<char>)
    requires
        !token.contains('='),
        !token.contains('&'),
    ensures
        redacted_query(token) == "<redacted>"@,
{
    assert forall|i: int| 0 <= i < token.len() implies #[trigger] token[i] != '=' by {
        assert(token.contains(token[i]));
    }
    assert forall|i: int| 0 <= i < token.len() implies #[trigger] token[i] != '&' by {
        assert(token.contains(token[i]));
    }
    lemma_length_before_is(token, '=', token.len() as int);
    lemma_length_before_is(token, '&', token.len() as int);
}

/// A query with one parameter in it, between what stands before and after.
pub open spec fn query_with(
    before: Seq<char>,
    name: Seq<char>,
    value: Seq<char>,
    after: Seq<char>,
) -> Seq<char> {
    before + "&"@ + (name + "="@ + value) + "&"@ + after
}

/// A parameter whose name is none of the four is shown with a mask for its
/// value, wherever in a query it stands: alone, first, last or between others.
/// So two URLs that differ only in that value are shown alike.
pub proof fn law_credentials_masked(
    url: UrlView,
    before: Seq<char>,
    name: Seq<char>,
    value: Seq<char>,
    other: Seq<char>,
    after: Seq<char>,
)
    requires
        !name.contains('='),
        !name.contains('&'),
        !value.contains('&'),
        !other.contains('&'),
        name != "api-version"@,
        name != "apiversion"@,
        name != "comp"@,
        name != "restype"@,
    ensures
        redacted_query(name + "="@ + value) == name + "="@ + "<redacted>"@,
        redacted_query(name + "="@ + value + "&"@ + after) == name + "="@ + "<redacted>"@ + "&"@
            + redacted_query(after),
        redacted_query(before + "&"@ + (name + "="@ + value)) == redacted_query(before) + "&"@ + (
        name + "="@ + "<redacted>"@),
        redacted_query(query_with(before, name, value, after)) == redacted_query(before) + "&"@ + (
        name + "="@ + "<redacted>"@) + "&"@ + redacted_query(after),
        redacted(UrlView { query: Some(name + "="@ + value), ..url }) == redacted(
            UrlView { query: Some(name + "="@ + other), ..url },
        ),
        redacted(UrlView { query: Some(name + "="@ + value + "&"@ + after), ..url }) == redacted(
            UrlView { query: Some(name + "="@ + other + "&"@ + after), ..url },
        ),
        redacted(UrlView { query: Some(before + "&"@ + (name + "="@ + value)), ..url })
            == redacted(UrlView { query: Some(before + "&"@ + (name + "="@ + other)), ..url }),
        redacted(UrlView { query: Some(query_with(before, name, value, after)), ..url })
            == redacted(UrlView { query: Some(query_with(before, name, other, after)), ..url }),
{
    let one = name + "="@ + value;
    let two = name + "="@ + other;
    law_parameter_shown(name, value);
    law_parameter_shown(name, other);
    law_query_joined(one, after);
    law_query_joined(two, after);
    law_query_joined(before, one);
    law_query_joined(before, two);
    law_query_joined(before + "&"@ + one, after);
    law_query_joined(before + "&"@ + two, after);
}

/// What is shown of a URL, part by part: scheme, host, port and path as they
/// are, a mask for user information and for the fragment, and the redacted
/// query.
pub proof fn law_url_shown(url: UrlView)
    ensures
        redacted(url) == url.scheme + (if url.has_authority {
            "://"@ + ((if url.username.len() > 0 || url.password is Some {
                "<redacted>"@ + "@"@
            } else {
                Seq::<char>::empty()
            }) + (match url.host {
                Some(host) => host,
                None => Seq::<char>::empty(),
            }) + (match url.port {
                Some(port) => ":"@ + decimal(port as nat),
                None => Seq::<char>::empty(),
            }))
        } else {
            ":"@
        }) + url.path + (match url.query {
            Some(query) => "?"@ + redacted_query(query),
            None => Seq::<char>::empty(),
        }) + (match url.fragment {
            Some(_) => "#"@ + "<redacted>"@,
            None => Seq::<char>::empty(),
        }),
{
}

/// What is shown of a text is what is shown of the URL that it parses to, and
/// nothing where it parses to none.
pub proof fn law_text_shown(text: Seq<char>)
    ensures
        match parsed_url(text) {
            Ok(url) => redacted_url(text) == redacted(url),
            Err(_) => redacted_url(text) == "<redacted>"@,
        },
{
}

proof fn lemma_plain_rest_shown(text: Seq<char>, opened: bool)
    requires
        forall|i: int| 0 <= i < text.len() ==> !web_url(#[trigger] text.skip(i)),
    ensures
        redacted_rest(text, opened) == text,
    decreases text.len(),
{
    if text.len() > 0 {
        let rest = text.skip(1);
        assert forall|i: int| 0 <= i < rest.len() implies !web_url(#[trigger] rest.skip(i)) by {
            assert(rest.skip(i) =~= text.skip(i + 1));
        }
        lemma_plain_rest_shown(rest, text[0] == '(');
        assert(text.skip(0) =~= text);
        assert(seq![text[0]] + rest =~= text);
    }
}

/// A text without URLs is shown as it is.
pub proof fn law_plain_text_shown(text: Seq<char>)
    requires
        forall|i: int| 0 <= i < text.len() ==> !web_url(#[trigger] text.skip(i)),
    ensures
        redacted_text(text) == text,
{
    lemma_plain_rest_shown(text, false);
}

proof fn lemma_text_before_url(text: Seq<char>, opened: bool, n: int)
    requires
        0 <= n <= text.len(),
        forall|i: int| 0 <= i < n ==> !web_url(#[trigger] text.skip(i)),
    ensures
        redacted_rest(text, opened) == text.take(n) + redacted_rest(
            text.skip(n),
            if n == 0 {
                opened
            } else {
                text[n - 1] == '('
            },
        ),
    decreases n,
{
    assert(text.skip(0) =~= text);
    if n > 0 {
        let rest = text.skip(1);
        let o = text[n - 1] == '(';
        assert forall|i: int| 0 <= i < n - 1 implies !web_url(#[trigger] rest.skip(i)) by {
            assert(rest.skip(i) =~= text.skip(i + 1));
        }
        lemma_text_before_url(rest, text[0] == '(', n - 1);
        assert(!web_url(text.skip(0)));
        assert(rest.skip(n - 1) =~= text.skip(n));
        assert(seq![text[0]] + (rest.take(n - 1) + redacted_rest(text.skip(n), o)) =~= text.take(n)
            + redacted_rest(text.skip(n), o));
    } else {
        assert(text.take(0) + redacted_rest(text, opened) =~= redacted_rest(text, opened));
    }
}

proof fn lemma_run_length_is(text: Seq<char>, n: int)
    requires
        0 <= n <= text.len(),
        forall|i: int| 0 <= i < n ==> !ascii_whitespace(#[trigger] text[i]),
        n < text.len() ==> ascii_whitespace(text[n]),
    ensures
        run_length(text) == n,
    decreases n,
{
    if n > 0 {
        let rest = text.skip(1);
        assert forall|i: int| 0 <= i < n - 1 implies !ascii_whitespace(#[trigger] rest[i]) by {
            assert(rest[i] == text[i + 1]);
        }
        lemma_run_length_is(rest, n - 1);
    }
}

proof fn lemma_url_starts_in(url: Seq<char>, after: Seq<char>)
    requires
        web_url(url),
    ensures
        web_url(url + after),
{
    reveal_strlit("http://");
    reveal_strlit("https://");
    if stands_at(url, "http://"@, 0) {
        assert((url + after).subrange(0, 7) =~= url.subrange(0, 7));
    } else {
        assert((url + after).subrange(0, 8) =~= url.subrange(0, 8));
    }
}

/// Nothing but white space ends the URL that a text goes on with.
pub open spec fn ends_here(after: Seq<char>) -> bool {
    after.len() > 0 ==> ascii_whitespace(after[0])
}

/// A URL in round brackets, in a text where no other URL starts before it.
pub open spec fn in_brackets(before: Seq<char>, url: Seq<char>, after: Seq<char>) -> bool {
    let text = before + "("@ + url + ")"@ + after;
    &&& forall|i: int| 0 <= i < before.len() ==> !web_url(#[trigger] text.skip(i))
    &&& web_url(url)
    &&& unbroken(url)
    &&& ends_here(after)
}

/// A URL in round brackets, as the HTTP client quotes it in its error texts, is
/// replaced by what is shown of it, whatever characters it ends in.
pub proof fn law_bracketed_url_redacted(before: Seq<char>, url: Seq<char>, after: Seq<char>)
    requires
        in_brackets(before, url, after),
    ensures
        redacted_text(before + "("@ + url + ")"@ + after) == before + "("@ + redacted_url(url)
            + ")"@ + redacted_text(after),
{
    let text = before + "("@ + url + ")"@ + after;
    let tail = url + ")"@ + after;
    let b = before.len() as int;
    let k = url.len() as int;
    reveal_strlit("(");
    reveal_strlit(")");
    reveal_strlit("http://");
    reveal_strlit("https://");
    assert(text[b] == '(');
    assert forall|i: int| 0 <= i < b + 1 implies !web_url(#[trigger] text.skip(i)) by {
        if i == b && web_url(text.skip(b)) {
            let rest = text.skip(b);
            assert(rest[0] == '(');
            if stands_at(rest, "http://"@, 0) {
                assert(rest.subrange(0, 7)[0] == 'h');
            } else {
                assert(rest.subrange(0, 8)[0] == 'h');
            }
        }
    }
    lemma_text_before_url(text, false, b + 1);
    assert(text.take(b + 1) =~= before + "("@);
    assert(text.skip(b + 1) =~= tail);
    lemma_url_starts_in(url, ")"@ + after);
    assert(url + (")"@ + after) =~= tail);
    assert forall|i: int| 0 <= i < k + 1 implies !ascii_whitespace(#[trigger] tail[i]) by {
        if i < k {
            assert(tail[i] == url[i]);
        }
    }
    assert(k + 1 < tail.len() ==> tail[k + 1] == after[0]);
    lemma_run_length_is(tail, k + 1);
    assert(tail[k] == ')');
    assert(tail.take(k) =~= url);
    let rest = tail.skip(k);
    assert(rest =~= ")"@ + after);
    assert(!web_url(rest)) by {
        if stands_at(rest, "http://"@, 0) {
            assert(rest.subrange(0, 7)[0] == rest[0]);
        }
        if stands_at(rest, "https://"@, 0) {
            assert(rest.subrange(0, 8)[0] == rest[0]);
        }
    }
    assert(rest.skip(1) =~= after);
    assert(seq![rest[0]] =~= ")"@);
    assert(url_length(tail, true) == k);
    assert(redacted_rest(rest, false) == ")"@ + redacted_rest(after, false));
    assert(redacted_rest(tail, true) == redacted_url(url) + redacted_rest(rest, false));
    assert(before + "("@ + (redacted_url(url) + (")"@ + redacted_text(after))) =~= before + "("@
        + redacted_url(url) + ")"@ + redacted_text(after));
}

/// A URL that stands between white space is replaced by what is shown of it,
/// whatever characters it ends in.
pub proof fn law_free_url_redacted(before: Seq<char>, url: Seq<char>, after: Seq<char>)
    requires
        ({
            let text = before + url + after;
            forall|i: int| 0 <= i < before.len() ==> !web_url(#[trigger] text.skip(i))
        }),
        before.len() > 0 ==> before.last() != '(',
        web_url(url),
        unbroken(url),
        ends_here(after),
    ensures
        redacted_text(before + url + after) == before + redacted_url(url) + redacted_text(after),
{
    let text = before + url + after;
    let tail = url + after;
    let b = before.len() as int;
    let k = url.len() as int;
    lemma_text_before_url(text, false, b);
    assert(text.take(b) =~= before);
    assert(text.skip(b) =~= tail);
    assert(b > 0 ==> text[b - 1] == before.last());
    lemma_url_starts_in(url, after);
    assert forall|i: int| 0 <= i < k implies !ascii_whitespace(#[trigger] tail[i]) by {
        assert(tail[i] == url[i]);
    }
    assert(k < tail.len() ==> tail[k] == after[0]);
    lemma_run_length_is(tail, k);
    assert(tail.take(k) =~= url);
    assert(tail.skip(k) =~= after);
    assert(k > 0) by {
        reveal_strlit("http://");
        reveal_strlit("https://");
    }
    assert(url_length(tail, false) == k);
    assert(redacted_rest(tail, false) == redacted_url(url) + redacted_rest(after, false));
    assert(before + (redacted_url(url) + redacted_text(after)) =~= before + redacted_url(url)
        + redacted_text(after));
}

/// A URL after a round bracket that nothing closes is replaced by what is shown
/// of it, whatever other characters it ends in.
pub proof fn law_unclosed_url_redacted(before: Seq<char>, url: Seq<char>, after: Seq<char>)
    requires
        ({
            let text = before + url + after;
            forall|i: int| 0 <= i < before.len() ==> !web_url(#[trigger] text.skip(i))
        }),
        web_url(url),
        unbroken(url),
        url.last() != ')',
        ends_here(after),
    ensures
        redacted_text(before + url + after) == before + redacted_url(url) + redacted_text(after),
{
    let text = before + url + after;
    let tail = url + after;
    let b = before.len() as int;
    let k = url.len() as int;
    let opened = b > 0 && text[b - 1] == '(';
    lemma_text_before_url(text, false, b);
    assert(text.take(b) =~= before);
    assert(text.skip(b) =~= tail);
    lemma_url_starts_in(url, after);
    assert forall|i: int| 0 <= i < k implies !ascii_whitespace(#[trigger] tail[i]) by {
        assert(tail[i] == url[i]);
    }
    assert(k < tail.len() ==> tail[k] == after[0]);
    lemma_run_length_is(tail, k);
    assert(tail.take(k) =~= url);
    assert(tail.skip(k) =~= after);
    assert(k > 0) by {
        reveal_strlit("http://");
        reveal_strlit("https://");
    }
    assert(tail[k - 1] == url.last());
    assert(url_length(tail, opened) == k);
    assert(redacted_rest(tail, opened) == redacted_url(url) + redacted_rest(after, false));
    assert(before + (redacted_url(url) + redacted_text(after)) =~= before + redacted_url(url)
        + redacted_text(after));
}

/// Two error texts in which the client quotes, in round brackets, URLs that
/// differ at most in what is secret.
pub open spec fn quoted_alike(
    one: Seq<char>,
    other: Seq<char>,
    before: Seq<char>,
    url: Seq<char>,
    other_url: Seq<char>,
    after: Seq<char>,
) -> bool {
    &&& one == before + "("@ + url + ")"@ + after
    &&& other == before + "("@ + other_url + ")"@ + after
    &&& in_brackets(before, url, after)
    &&& in_brackets(before, other_url, after)
    &&& parsed_url(url) matches Ok(a) && parsed_url(other_url) matches Ok(b) && alike_urls(a, b)
}

/// Two error texts, on requests for `href` and for `other_href`, that differ at
/// most in the URL that they quote: they are the same around the requested URL,
/// or they do not hold it and quote alike URLs in round brackets. The latter is
/// so where the client has taken the user information out of the URL.
pub open spec fn alike_texts(
    one: Seq<char>,
    href: Seq<char>,
    other: Seq<char>,
    other_href: Seq<char>,
) -> bool {
    ||| around(one, href) == around(other, other_href)
    ||| {
        &&& !occurs_in(href, one)
        &&& !occurs_in(other_href, other)
        &&& exists|before: Seq<char>, url: Seq<char>, other_url: Seq<char>, after: Seq<char>|
            #[trigger] quoted_alike(one, other, before, url, other_url, after)
    }
}

/// Around a URL that does not occur in it, a text is one piece.
proof fn lemma_around_absent(text: Seq<char>, url: Seq<char>)
    requires
        !occurs_in(url, text),
    ensures
        around(text, url) == seq![text],
{
    lemma_length_until(text, url);
}

/// A report that does not quote the requested URL is shown as any text.
pub proof fn law_report_without_quote(text: Seq<char>, url: Seq<char>, safe_url: Seq<char>)
    requires
        !occurs_in(url, text),
    ensures
        redacted_report(text, url, safe_url) == redacted_text(text),
{
    lemma_around_absent(text, url);
}

/// In a report that quotes the requested URL, its redacted form stands in that
/// place; what is before is shown as any text, what is after as a report again.
pub proof fn law_report_replaces_quote(
    before: Seq<char>,
    url: Seq<char>,
    after: Seq<char>,
    safe_url: Seq<char>,
)
    requires
        url.len() > 0,
        forall|at: int|
            0 <= at < before.len() ==> !#[trigger] stands_at(before + url + after, url, at),
    ensures
        redacted_report(before + url + after, url, safe_url) == redacted_text(before) + safe_url
            + redacted_report(after, url, safe_url),
{
    let text = before + url + after;
    let b = before.len() as int;
    assert(text.subrange(b, b + url.len()) =~= url);
    assert(stands_at(text, url, b));
    lemma_length_until(text, url);
    lemma_length_until_reaches(text, url, b);
    assert(length_until(text, url) == b);
    assert(text.take(b) =~= before);
    assert(text.skip(b + url.len()) =~= after);
    lemma_around_nonempty(after, url);
    let all = around(text, url);
    assert(all[0] == before);
    assert(all.skip(1) =~= around(after, url));
}

/// Two error texts that differ at most in the URL that they quote are shown
/// alike.
pub proof fn law_alike_texts_shown_alike(
    one: Seq<char>,
    href: Seq<char>,
    other: Seq<char>,
    other_href: Seq<char>,
    safe_url: Seq<char>,
)
    requires
        alike_texts(one, href, other, other_href),
    ensures
        redacted_report(one, href, safe_url) == redacted_report(other, other_href, safe_url),
{
    if around(one, href) != around(other, other_href) {
        let (before, url, other_url, after) = choose|
            before: Seq<char>,
            url: Seq<char>,
            other_url: Seq<char>,
            after: Seq<char>,
        | #[trigger] quoted_alike(one, other, before, url, other_url, after);
        lemma_around_absent(one, href);
        lemma_around_absent(other, other_href);
        law_bracketed_url_redacted(before, url, after);
        law_bracketed_url_redacted(before, other_url, after);
        law_secrets_unseen(parsed_url(url)->Ok_0, parsed_url(other_url)->Ok_0);
    }
}

/// The URL stands in the text after `before`, and nowhere else in it.
pub open spec fn only_there(before: Seq<char>, url: Seq<char>, after: Seq<char>) -> bool {
    forall|at: int|
        #[trigger] stands_at(before + url + after, url, at) ==> at == before.len()
}

/// Around the one place where it stands, a URL leaves what is before and after.
pub proof fn lemma_around_only(before: Seq<char>, url: Seq<char>, after: Seq<char>)
    requires
        url.len() > 0,
        only_there(before, url, after),
    ensures
        around(before + url + after, url) == seq![before, after],
{
    let text = before + url + after;
    let b = before.len() as int;
    assert(text.subrange(b, b + url.len()) =~= url);
    assert(stands_at(text, url, b));
    lemma_length_until(text, url);
    lemma_length_until_reaches(text, url, b);
    assert(length_until(text, url) == b);
    assert(text.take(b) =~= before);
    let rest = text.skip(b + url.len());
    assert(rest =~= after);
    assert(!occurs_in(url, after)) by {
        if occurs_in(url, after) {
            let at = choose|at: int| stands_at(after, url, at);
            let there = b + url.len() + at;
            assert(text.subrange(there, there + url.len()) =~= after.subrange(
                at,
                at + url.len(),
            ));
            assert(stands_at(text, url, there));
        }
    }
    lemma_around_absent(after, url);
    assert(around(text, url) =~= seq![before, after]);
}

/// The count stops at the latest where the URL stands.
proof fn lemma_length_until_reaches(text: Seq<char>, url: Seq<char>, at: int)
    requires
        0 <= at < text.len(),
        stands_at(text, url, at),
    ensures
        length_until(text, url) <= at,
    decreases text.len(),
{
    if !stands_at(text, url, 0) {
        let rest = text.skip(1);
        assert(at > 0);
        lemma_stands_from(text, url, at);
        lemma_stands_from(rest, url, at - 1);
        assert(rest.skip(at - 1) =~= text.skip(at));
        lemma_length_until_reaches(rest, url, at - 1);
    }
}

/// Two outcomes of reading a body that differ at most in the URL that an error
/// text quotes.
pub open spec fn alike_responses(
    one: ResponseView,
    href: Seq<char>,
    other: ResponseView,
    other_href: Seq<char>,
) -> bool {
    &&& one.status == other.status
    &&& one.headers == other.headers
    &&& one.duration_ms == other.duration_ms
    &&& match (one.body, other.body) {
        (Ok(body), Ok(other_body)) => body == other_body,
        (Err(e), Err(f)) => alike_texts(e, href, f, other_href),
        _ => false,
    }
}

/// Two failures that differ at most in the URL that their texts quote.
pub open spec fn alike_failures(
    one: SendFailureView,
    href: Seq<char>,
    other: SendFailureView,
    other_href: Seq<char>,
) -> bool {
    &&& alike_texts(one.text, href, other.text, other_href)
    &&& one.causes.len() == other.causes.len()
    &&& forall|i: int|
        0 <= i < one.causes.len() ==> alike_texts(
            #[trigger] one.causes[i],
            href,
            other.causes[i],
            other_href,
        )
    &&& one.status == other.status
    &&& one.timeout == other.timeout
    &&& one.connect == other.connect
}

/// Two courses of the outside world, on requests for `href` and for
/// `other_href`, that differ at most in the URL that error texts quote.
pub open spec fn alike_answers(
    one: AnswersView,
    href: Seq<char>,
    other: AnswersView,
    other_href: Seq<char>,
) -> bool {
    &&& one.verdict == other.verdict
    &&& one.client == other.client
    &&& match (one.reply, other.reply) {
        (ReplyView::Failed(f), ReplyView::Failed(g)) => alike_failures(f, href, g, other_href),
        (ReplyView::Answered(r), ReplyView::Answered(q)) => alike_responses(
            r,
            href,
            q,
            other_href,
        ),
        _ => false,
    }
}

proof fn lemma_alike_refusals(
    sent: SentView,
    other: SentView,
    texts: Seq<Seq<char>>,
    others: Seq<Seq<char>>,
)
    requires
        sent.safe_url == other.safe_url,
        texts.len() == others.len(),
        forall|i: int|
            0 <= i < texts.len() ==> alike_texts(
                #[trigger] texts[i],
                sent.href,
                others[i],
                other.href,
            ),
    ensures
        first_refusal(sent, texts) == first_refusal(other, others),
    decreases texts.len(),
{
    if texts.len() > 0 {
        law_alike_texts_shown_alike(
            texts[0],
            sent.href,
            others[0],
            other.href,
            sent.safe_url,
        );
        let rest = texts.skip(1);
        let other_rest = others.skip(1);
        assert forall|i: int| 0 <= i < rest.len() implies alike_texts(
            #[trigger] rest[i],
            sent.href,
            other_rest[i],
            other.href,
        ) by {
            assert(rest[i] == texts[i + 1]);
            assert(other_rest[i] == others[i + 1]);
        }
        lemma_alike_refusals(sent, other, rest, other_rest);
    }
}

/// Nothing that an exchange logs or returns depends on the secrets in its URL:
/// two jobs whose URLs differ in nothing else, on which the world answers alike
/// up to the URL in its texts, leave the same log and the same result.
pub proof fn law_url_secrets_stay(
    policy: HttpPolicy,
    job: JobView,
    other_url: Seq<char>,
    answers: AnswersView,
    others: AnswersView,
)
    requires
        parsed_url(job.url) matches Ok(a) && parsed_url(other_url) matches Ok(b) && alike_urls(
            a,
            b,
        ) && alike_answers(answers, a.href, others, b.href),
    ensures
        ({
            let other = JobView { url: other_url, ..job };
            &&& run(policy, job, answers).log == run(policy, other, others).log
            &&& run(policy, job, answers).result == run(policy, other, others).result
            &&& run(policy, job, answers).sent is Some == run(policy, other, others).sent is Some
        }),
{
    let other = JobView { url: other_url, ..job };
    let a = parsed_url(job.url)->Ok_0;
    let b = parsed_url(other_url)->Ok_0;
    law_secrets_unseen(a, b);
    if run(policy, job, answers).sent is Some {
        let cleared = authorized(pending(policy, job), answers.verdict)->Ok_0;
        let other_cleared = authorized(pending(policy, other), others.verdict)->Ok_0;
        let one = sent(cleared);
        let two = sent(other_cleared);
        assert(one.href == a.href && two.href == b.href);
        assert(one.safe_url == two.safe_url);
        match (answers.reply, others.reply) {
            (ReplyView::Failed(f), ReplyView::Failed(g)) => {
                law_alike_texts_shown_alike(f.text, one.href, g.text, two.href, one.safe_url);
                lemma_alike_refusals(one, two, f.causes, g.causes);
                assert(refusal(one, f) == refusal(two, g));
                assert(failure_message(one, f) == failure_message(two, g));
                assert(failure_line(one, f) == failure_line(two, g));
            },
            (ReplyView::Answered(r), ReplyView::Answered(q)) => {
                if let (Err(e), Err(f)) = (r.body, q.body) {
                    law_alike_texts_shown_alike(e, one.href, f, two.href, one.safe_url);
                }
                assert(completed(one, r) == completed(two, q));
                assert(completion_line(one, r) == completion_line(two, q));
            },
            _ => {},
        }
    }
}

/// No error depends on the secrets in the URL that the client quotes: two jobs
/// whose URLs differ in nothing else, on which all answers are equal but that
/// the failure's text holds the canonical text of the one URL and of the other
/// in the same place, leave the same log and the same result. The URL stands in
/// its text in that place alone, and not in the causes.
pub proof fn law_quoted_secrets_stay(
    policy: HttpPolicy,
    job: JobView,
    other_url: Seq<char>,
    answers: AnswersView,
    failure: SendFailureView,
    before: Seq<char>,
    after: Seq<char>,
)
    requires
        parsed_url(job.url) matches Ok(a) && parsed_url(other_url) matches Ok(b) && {
            &&& alike_urls(a, b)
            &&& a.href.len() > 0
            &&& b.href.len() > 0
            &&& only_there(before, a.href, after)
            &&& only_there(before, b.href, after)
            &&& forall|i: int|
                0 <= i < failure.causes.len() ==> !occurs_in(
                    a.href,
                    #[trigger] failure.causes[i],
                ) && !occurs_in(b.href, failure.causes[i])
        },
    ensures
        ({
            let h = parsed_url(job.url)->Ok_0.href;
            let k = parsed_url(other_url)->Ok_0.href;
            let other = JobView { url: other_url, ..job };
            let one = SendFailureView { text: before + h + after, ..failure };
            let two = SendFailureView { text: before + k + after, ..failure };
            let here = run(
                policy,
                job,
                AnswersView { reply: ReplyView::Failed(one), ..answers },
            );
            let there = run(
                policy,
                other,
                AnswersView { reply: ReplyView::Failed(two), ..answers },
            );
            here.log == there.log && here.result == there.result
        }),
{
    let h = parsed_url(job.url)->Ok_0.href;
    let k = parsed_url(other_url)->Ok_0.href;
    let one = SendFailureView { text: before + h + after, ..failure };
    let two = SendFailureView { text: before + k + after, ..failure };
    lemma_around_only(before, h, after);
    lemma_around_only(before, k, after);
    assert forall|i: int| 0 <= i < one.causes.len() implies alike_texts(
        #[trigger] one.causes[i],
        h,
        two.causes[i],
        k,
    ) by {
        assert(!occurs_in(h, failure.causes[i]));
        lemma_around_absent(failure.causes[i], h);
        lemma_around_absent(failure.causes[i], k);
    }
    law_url_secrets_stay(
        policy,
        job,
        other_url,
        AnswersView { reply: ReplyView::Failed(one), ..answers },
        AnswersView { reply: ReplyView::Failed(two), ..answers },
    );
}

proof fn lemma_all_same(text: Seq<char>, n: int)
    requires
        0 <= n < text.len(),
        forall|i: int| 0 <= i < text.len() - 1 ==> text[i + 1] == #[trigger] text[i],
    ensures
        text[n] == text[0],
    decreases n,
{
    if n > 0 {
        lemma_all_same(text, n - 1);
        assert(text[n - 1 + 1] == text[n - 1]);
    }
}

/// A URL whose first letter does not occur in the words before it, and which a
/// round bracket closes, stands in that place alone.
proof fn lemma_only_there(words: Seq<char>, url: Seq<char>)
    requires
        url.len() > 0,
        url[0] == 'h',
        !words.contains('h'),
    ensures
        only_there(words, url, ")"@),
{
    reveal_strlit(")");
    let text = words + url + ")"@;
    let b = words.len() as int;
    assert forall|at: int| #[trigger] stands_at(text, url, at) implies at == b by {
        let there = text.subrange(at, at + url.len());
        assert(there[0] == text[at]);
        if at < b {
            assert(text[at] == words[at]);
        } else if at > b {
            assert(at == b + 1);
            assert forall|i: int| 0 <= i < url.len() - 1 implies url[i + 1] == #[trigger] url[i] by {
                assert(there[i] == text[b + 1 + i]);
            }
            lemma_all_same(url, url.len() - 1);
            assert(there[url.len() - 1] == text[text.len() - 1]);
        }
    }
}

/// The error texts of the client are some words, the requested URL in round
/// brackets, and nothing more. In two exchanges whose URLs differ at most in
/// what is secret, and where all else is equal, they leave the same log and the
/// same result, whatever characters the secrets end in.
pub proof fn law_client_errors_hide_secrets(
    policy: HttpPolicy,
    job: JobView,
    other_url: Seq<char>,
    answers: AnswersView,
    failure: SendFailureView,
    words: Seq<char>,
)
    requires
        !words.contains('h'),
        parsed_url(job.url) matches Ok(a) && parsed_url(other_url) matches Ok(b) && {
            &&& alike_urls(a, b)
            &&& stands_at(a.href, "http"@, 0)
            &&& stands_at(b.href, "http"@, 0)
            &&& forall|i: int|
                0 <= i < failure.causes.len() ==> !occurs_in(
                    a.href,
                    #[trigger] failure.causes[i],
                ) && !occurs_in(b.href, failure.causes[i])
        },
    ensures
        ({
            let h = parsed_url(job.url)->Ok_0.href;
            let k = parsed_url(other_url)->Ok_0.href;
            let other = JobView { url: other_url, ..job };
            let one = SendFailureView { text: words + h + ")"@, ..failure };
            let two = SendFailureView { text: words + k + ")"@, ..failure };
            let here = run(
                policy,
                job,
                AnswersView { reply: ReplyView::Failed(one), ..answers },
            );
            let there = run(
                policy,
                other,
                AnswersView { reply: ReplyView::Failed(two), ..answers },
            );
            here.log == there.log && here.result == there.result
        }),
{
    let h = parsed_url(job.url)->Ok_0.href;
    let k = parsed_url(other_url)->Ok_0.href;
    reveal_strlit("http");
    assert(h.subrange(0, 4)[0] == 'h');
    assert(k.subrange(0, 4)[0] == 'h');
    lemma_only_there(words, h);
    lemma_only_there(words, k);
    law_quoted_secrets_stay(policy, job, other_url, answers, failure, words, ")"@);
}

} // verus!
