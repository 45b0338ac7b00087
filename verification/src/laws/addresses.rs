//! Laws of the address blocklist.
use vstd::prelude::*;

#[allow(unused_imports)]
use crate::activities::exchange::{
    blocked_line, failure_line, failure_message, first_refusal, shown_text, SendFailureView,
    SentView,
};
#[allow(unused_imports)]
use crate::address::{
    blocked_address_message, blocked_range, lemma_v6_number, mapped_base,
    restricted_range_notice, screened, v4_number, v6_number, v6_prefix, IpAddress,
};
#[allow(unused_imports)]
use crate::laws::redaction::{law_plain_text_shown, web_url};
#[allow(unused_imports)]
use crate::redact::{around, lemma_length_until};
#[allow(unused_imports)]
use crate::text::{occurs_in, stands_at};

verus! {

/// An IPv4-mapped IPv6 address is blocked exactly where the IPv4 address that
/// it carries is, and as the same range.
pub proof fn law_mapped_as_carried(a: u8, b: u8, c: u8, d: u8, mapped: [u16; 8])
    requires
        forall|i: int| 0 <= i < 5 ==> #[trigger] mapped@[i] == 0,
        mapped@[5] == 0xffff,
        mapped@[6] == a * 256 + b,
        mapped@[7] == c * 256 + d,
    ensures
        blocked_range(IpAddress::V6(mapped)) == blocked_range(IpAddress::V4(a, b, c, d)),
{
    reveal_with_fuel(v6_prefix, 9);
    assert(v6_number(mapped@) == mapped_base() + v4_number(a, b, c, d));
}

/// The answer to a blocked address is recognised as one, whatever text the
/// client puts around it.
pub proof fn law_refusal_recognised(before: Seq<char>, host: Seq<char>, after: Seq<char>)
    ensures
        occurs_in(
            restricted_range_notice(),
            before + blocked_address_message(host) + after,
        ),
{
    let text = before + blocked_address_message(host) + after;
    let notice = restricted_range_notice();
    let at = before.len() + blocked_address_message(host).len() - notice.len();
    assert(text.subrange(at, at + notice.len()) =~= notice);
    assert(stands_at(text, notice, at));
}

/// The first text that says so is the refusal.
pub proof fn lemma_first_refusal(sent: SentView, texts: Seq<Seq<char>>, k: int)
    requires
        0 <= k < texts.len(),
        occurs_in(restricted_range_notice(), shown_text(sent, texts[k])),
        forall|i: int|
            0 <= i < k ==> !occurs_in(
                restricted_range_notice(),
                shown_text(sent, #[trigger] texts[i]),
            ),
    ensures
        first_refusal(sent, texts) == Some(shown_text(sent, texts[k])),
    decreases k,
{
    if k > 0 {
        let rest = texts.skip(1);
        assert(rest[k - 1] == texts[k]);
        assert forall|i: int| 0 <= i < k - 1 implies !occurs_in(
            restricted_range_notice(),
            shown_text(sent, #[trigger] rest[i]),
        ) by {
            assert(rest[i] == texts[i + 1]);
        }
        assert(!occurs_in(restricted_range_notice(), shown_text(sent, texts[0])));
        lemma_first_refusal(sent, rest, k - 1);
    }
}

/// Where the resolver refuses the address of a host, however deep in the causes
/// of the failure that stands, the activity fails with the resolver's answer
/// and logs the block. Neither shows the address.
pub proof fn law_refused_address_reported(
    sent: SentView,
    failure: SendFailureView,
    host: Seq<char>,
    k: int,
)
    requires
        !occurs_in(restricted_range_notice(), shown_text(sent, failure.text)),
        0 <= k < failure.causes.len(),
        failure.causes[k] == blocked_address_message(host),
        forall|i: int|
            0 <= i < k ==> !occurs_in(
                restricted_range_notice(),
                shown_text(sent, #[trigger] failure.causes[i]),
            ),
        forall|i: int|
            0 <= i < blocked_address_message(host).len() ==> !web_url(
                #[trigger] blocked_address_message(host).skip(i),
            ),
        !occurs_in(sent.href, blocked_address_message(host)),
    ensures
        failure_message(sent, failure) == blocked_address_message(host),
        failure_line(sent, failure) == Some(
            blocked_line(sent.activity, "ip"@, sent.safe_url, sent.submitted_by),
        ),
{
    let message = blocked_address_message(host);
    law_refusal_recognised(Seq::empty(), host, Seq::empty());
    assert(Seq::<char>::empty() + message + Seq::<char>::empty() =~= message);
    law_plain_text_shown(message);
    lemma_length_until(message, sent.href);
    assert(around(message, sent.href) =~= seq![message]);
    lemma_first_refusal(sent, failure.causes, k);
}

/// The blocked range of an IPv4 address, read off its octets.
pub proof fn law_v4_ranges(a: u8, b: u8, c: u8, d: u8)
    ensures
        blocked_range(IpAddress::V4(a, b, c, d)) == (if a == 0 {
            Some("0.0.0.0/8"@)
        } else if a == 10 {
            Some("10.0.0.0/8"@)
        } else if a == 100 && 64 <= b <= 127 {
            Some("100.64.0.0/10"@)
        } else if a == 127 {
            Some("127.0.0.0/8"@)
        } else if a == 169 && b == 254 {
            Some("169.254.0.0/16"@)
        } else if a == 172 && 16 <= b <= 31 {
            Some("172.16.0.0/12"@)
        } else if a == 192 && b == 168 {
            Some("192.168.0.0/16"@)
        } else {
            None
        }),
{
}

/// The blocked range of an IPv6 address that carries no IPv4 address, read off
/// its segments.
pub proof fn law_v6_ranges(s: [u16; 8])
    requires
        !(s@[0] == 0 && s@[1] == 0 && s@[2] == 0 && s@[3] == 0 && s@[4] == 0 && s@[5] == 0xffff),
    ensures
        blocked_range(IpAddress::V6(s)) == (if s@[0] == 0 && s@[1] == 0 && s@[2] == 0 && s@[3]
            == 0 && s@[4] == 0 && s@[5] == 0 && s@[6] == 0 && s@[7] == 0 {
            Some("::/128"@)
        } else if s@[0] == 0 && s@[1] == 0 && s@[2] == 0 && s@[3] == 0 && s@[4] == 0 && s@[5] == 0
            && s@[6] == 0 && s@[7] == 1 {
            Some("::1/128"@)
        } else if 0xfe80 <= s@[0] <= 0xfebf {
            Some("fe80::/10"@)
        } else if 0xfc00 <= s@[0] <= 0xfdff {
            Some("fc00::/7"@)
        } else {
            None
        }),
{
    lemma_v6_number(s@);
}

/// The answer to a blocked address names the host and nothing else, and the
/// words that it is recognised by are all that follows the host.
pub proof fn law_refusal_words(host: Seq<char>)
    ensures
        restricted_range_notice()
            == "' is in a restricted range. df.http() cannot access private or internal network addresses."@,
        blocked_address_message(host) == "Blocked: the resolved IP address for '"@ + host
            + "' is in a restricted range. df.http() cannot access private or internal network addresses."@,
{
}

/// A failure is no refusal where neither its text nor a cause, as they are
/// shown, says so.
pub proof fn lemma_no_refusal(sent: SentView, texts: Seq<Seq<char>>)
    requires
        forall|i: int|
            0 <= i < texts.len() ==> !occurs_in(
                restricted_range_notice(),
                shown_text(sent, #[trigger] texts[i]),
            ),
    ensures
        first_refusal(sent, texts) is None,
    decreases texts.len(),
{
    if texts.len() > 0 {
        let rest = texts.skip(1);
        assert(!occurs_in(restricted_range_notice(), shown_text(sent, texts[0])));
        assert forall|i: int| 0 <= i < rest.len() implies !occurs_in(
            restricted_range_notice(),
            shown_text(sent, #[trigger] rest[i]),
        ) by {
            assert(rest[i] == texts[i + 1]);
        }
        lemma_no_refusal(sent, rest);
    }
}

/// An address is screened out exactly where it lies in a blocked range, and the
/// answer is the same for every such address.
pub proof fn law_screened(host: Seq<char>, address: IpAddress)
    ensures
        screened(host, address) is Ok <==> blocked_range(address) is None,
        screened(host, address) matches Err(message) ==> message
            == "Blocked: the resolved IP address for '"@ + host
            + "' is in a restricted range. df.http() cannot access private or internal network addresses."@,
{
}

} // verus!
