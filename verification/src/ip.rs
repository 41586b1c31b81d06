//! Finding the caller's public IPv4 address: the address grammar, the
//! ordered list of echo services, and the walk through that list.

use crate::http::{HttpReply, HttpReplyView, HttpRequest, HttpRequestView, Method};
use crate::text::{all_digits, chars_of, decimal_value, digit_of, is_digit, trim, trimmed};
use vstd::prelude::*;
use vstd::string::*;

verus! {

/// One field of a dotted quad: one to three digits, no leading zero on a
/// field of several digits, a value of at most 255.
pub open spec fn is_octet(s: Seq<char>) -> bool {
    &&& 1 <= s.len() <= 3
    &&& all_digits(s)
    &&& (s.len() > 1 ==> s[0] != '0')
    &&& decimal_value(s) <= 255
}

/// `s` is four octets, parted by dots at the positions `a`, `b` and `c`.
pub open spec fn dotted_quad(s: Seq<char>, a: int, b: int, c: int) -> bool {
    &&& 0 <= a < b < c < s.len()
    &&& s[a] == '.'
    &&& s[b] == '.'
    &&& s[c] == '.'
    &&& is_octet(s.subrange(0, a))
    &&& is_octet(s.subrange(a + 1, b))
    &&& is_octet(s.subrange(b + 1, c))
    &&& is_octet(s.subrange(c + 1, s.len() as int))
}

/// Whether `s` is an IPv4 address in dotted-decimal notation.
pub open spec fn is_ipv4(s: Seq<char>) -> bool {
    exists|a: int, b: int, c: int| dotted_quad(s, a, b, c)
}

/// The digits of `s` that begin at `start` end just before `end`.
pub open spec fn digit_run(s: Seq<char>, start: int, end: int) -> bool {
    &&& 0 <= start <= end <= s.len()
    &&& all_digits(s.subrange(start, end))
    &&& (end < s.len() ==> !is_digit(s[end]))
}

proof fn lemma_digit_run_unique(s: Seq<char>, start: int, e1: int, e2: int)
    requires
        digit_run(s, start, e1),
        digit_run(s, start, e2),
    ensures
        e1 == e2,
{
    if e1 < e2 {
        assert(s.subrange(start, e2)[e1 - start] == s[e1]);
    } else if e2 < e1 {
        assert(s.subrange(start, e1)[e2 - start] == s[e2]);
    }
}

proof fn lemma_quad_runs(s: Seq<char>, a: int, b: int, c: int)
    requires
        dotted_quad(s, a, b, c),
    ensures
        digit_run(s, 0, a),
        digit_run(s, a + 1, b),
        digit_run(s, b + 1, c),
        digit_run(s, c + 1, s.len() as int),
{
}

/// Where the octet that begins at `start` ends, if one begins there and
/// takes up the whole run of digits.
fn octet_end(chars: &Vec<char>, start: usize) -> (r: Option<usize>)
    requires
        start <= chars.len(),
    ensures
        match r {
            Some(end) => digit_run(chars@, start as int, end as int) && is_octet(
                chars@.subrange(start as int, end as int),
            ),
            None => forall|end: int| #[trigger]
                digit_run(chars@, start as int, end) ==> !is_octet(
                    chars@.subrange(start as int, end),
                ),
        },
{
    let n = chars.len();
    let mut end: usize = start;
    let mut value: u32 = 0;
    while end < n && end - start < 3
        invariant
            start <= end <= n,
            n == chars.len(),
            end - start <= 3,
            all_digits(chars@.subrange(start as int, end as int)),
            value == decimal_value(chars@.subrange(start as int, end as int)),
            value <= 999,
            end - start <= 2 ==> value <= 99,
            end - start <= 1 ==> value <= 9,
            end == start ==> value == 0,
        ensures
            start <= end <= n,
            end - start <= 3,
            all_digits(chars@.subrange(start as int, end as int)),
            value == decimal_value(chars@.subrange(start as int, end as int)),
            end - start < 3 ==> end == n || !is_digit(chars[end as int]),
        decreases n - end,
    {
        let digit = match digit_of(chars[end]) {
            Some(digit) => digit,
            None => {
                break;
            },
        };
        proof {
            let longer = chars@.subrange(start as int, end + 1);
            assert(longer.drop_last() =~= chars@.subrange(start as int, end as int));
            assert(longer.last() == chars[end as int]);
            assert forall|j: int| 0 <= j < longer.len() implies is_digit(#[trigger] longer[j]) by {
                if j < end - start {
                    assert(longer[j] == chars@.subrange(start as int, end as int)[j]);
                }
            }
        }
        value = value * 10 + digit as u32;
        end += 1;
    }
    let ghost run = chars@.subrange(start as int, end as int);
    let whole = end == n || digit_of(chars[end]).is_none();
    let plain = end - start == 1 || (end > start && chars[start] != '0');
    if whole && plain && value <= 255 {
        assert(run[0] == chars[start as int]);
        Some(end)
    } else {
        proof {
            assert forall|other: int| #[trigger]
                digit_run(chars@, start as int, other) implies !is_octet(
                chars@.subrange(start as int, other),
            ) by {
                let cut = chars@.subrange(start as int, other);
                if is_octet(cut) {
                    if whole {
                        lemma_digit_run_unique(chars@, start as int, end as int, other);
                        assert(cut[0] == chars[start as int]);
                    } else {
                        assert(end - start == 3);
                        if other <= end {
                            if other < end {
                                assert(run[other - start] == chars[other]);
                            }
                        }
                    }
                }
            }
        }
        None
    }
}

/// In a dotted quad the dots stand where the runs of digits end.
proof fn lemma_quad_pinned(s: Seq<char>, x: int, y: int, z: int, a: int, b: int, c: int)
    requires
        dotted_quad(s, x, y, z),
    ensures
        digit_run(s, 0, a) ==> x == a,
        digit_run(s, 0, a) && digit_run(s, a + 1, b) ==> y == b,
        digit_run(s, 0, a) && digit_run(s, a + 1, b) && digit_run(s, b + 1, c) ==> z == c,
{
    lemma_quad_runs(s, x, y, z);
    if digit_run(s, 0, a) {
        lemma_digit_run_unique(s, 0, x, a);
        if digit_run(s, a + 1, b) {
            lemma_digit_run_unique(s, a + 1, y, b);
            if digit_run(s, b + 1, c) {
                lemma_digit_run_unique(s, b + 1, z, c);
            }
        }
    }
}

/// Where the dot stands that follows the octet beginning at `start`, if an
/// octet begins there and a dot follows it.
fn octet_dot(chars: &Vec<char>, start: usize) -> (r: Option<usize>)
    requires
        start <= chars.len(),
    ensures
        match r {
            Some(dot) => {
                &&& digit_run(chars@, start as int, dot as int)
                &&& is_octet(chars@.subrange(start as int, dot as int))
                &&& dot < chars.len()
                &&& chars[dot as int] == '.'
            },
            None => forall|end: int| #[trigger]
                digit_run(chars@, start as int, end) ==> !(is_octet(
                    chars@.subrange(start as int, end),
                ) && end < chars.len() && chars[end] == '.'),
        },
{
    match octet_end(chars, start) {
        Some(end) => {
            if end < chars.len() && chars[end] == '.' {
                Some(end)
            } else {
                proof {
                    assert forall|other: int| #[trigger]
                        digit_run(chars@, start as int, other) implies !(is_octet(
                        chars@.subrange(start as int, other),
                    ) && other < chars.len() && chars[other] == '.') by {
                        lemma_digit_run_unique(chars@, start as int, end as int, other);
                    }
                }
                None
            }
        },
        None => None,
    }
}

/// Whether `s` is an IPv4 address in dotted-decimal notation.
pub fn is_ipv4_text(s: &str) -> (r: bool)
    ensures
        r == is_ipv4(s@),
{
    let chars = chars_of(s);
    let n = chars.len();
    let ghost t = chars@;
    let a = match octet_dot(&chars, 0) {
        Some(a) => a,
        None => {
            proof {
                assert forall|x: int, y: int, z: int| !dotted_quad(t, x, y, z) by {
                    if dotted_quad(t, x, y, z) {
                        lemma_quad_runs(t, x, y, z);
                    }
                }
            }
            return false;
        },
    };
    let b = match octet_dot(&chars, a + 1) {
        Some(b) => b,
        None => {
            proof {
                assert forall|x: int, y: int, z: int| !dotted_quad(t, x, y, z) by {
                    if dotted_quad(t, x, y, z) {
                        lemma_quad_runs(t, x, y, z);
                        lemma_quad_pinned(t, x, y, z, a as int, 0, 0);
                    }
                }
            }
            return false;
        },
    };
    let c = match octet_dot(&chars, b + 1) {
        Some(c) => c,
        None => {
            proof {
                assert forall|x: int, y: int, z: int| !dotted_quad(t, x, y, z) by {
                    if dotted_quad(t, x, y, z) {
                        lemma_quad_runs(t, x, y, z);
                        lemma_quad_pinned(t, x, y, z, a as int, b as int, 0);
                    }
                }
            }
            return false;
        },
    };
    match octet_end(&chars, c + 1) {
        Some(d) => {
            proof {
                if d == n {
                    assert(dotted_quad(t, a as int, b as int, c as int));
                } else {
                    assert forall|x: int, y: int, z: int| !dotted_quad(t, x, y, z) by {
                        if dotted_quad(t, x, y, z) {
                            lemma_quad_runs(t, x, y, z);
                            lemma_quad_pinned(t, x, y, z, a as int, b as int, c as int);
                            lemma_digit_run_unique(t, c + 1, d as int, n as int);
                        }
                    }
                }
            }
            d == n
        },
        None => {
            proof {
                assert forall|x: int, y: int, z: int| !dotted_quad(t, x, y, z) by {
                    if dotted_quad(t, x, y, z) {
                        lemma_quad_runs(t, x, y, z);
                        lemma_quad_pinned(t, x, y, z, a as int, b as int, c as int);
                    }
                }
            }
            false
        },
    }
}

/// How many echo services there are.
pub const IP_SERVICE_COUNT: usize = 5;

/// The address of the echo service at `index` in the order of preference;
/// meaningful below `IP_SERVICE_COUNT`.
pub open spec fn ip_service_url(index: int) -> Seq<char> {
    if index == 0 {
        "https://api.ipify.org"@
    } else if index == 1 {
        "https://ifconfig.me/ip"@
    } else if index == 2 {
        "https://checkip.amazonaws.com"@
    } else if index == 3 {
        "https://ipecho.net/plain"@
    } else {
        "https://ident.me"@
    }
}

/// The address of the echo service at `index`, or `None` past the last.
pub fn ip_service(index: usize) -> (r: Option<&'static str>)
    ensures
        r is Some <==> index < IP_SERVICE_COUNT,
        r matches Some(url) ==> url@ == ip_service_url(index as int),
{
    match index {
        0 => Some("https://api.ipify.org"),
        1 => Some("https://ifconfig.me/ip"),
        2 => Some("https://checkip.amazonaws.com"),
        3 => Some("https://ipecho.net/plain"),
        4 => Some("https://ident.me"),
        _ => None,
    }
}

/// The request that asks the echo service at `index` for the caller's
/// address: a plain `GET`, with no credential and no body.
pub open spec fn echo_request(index: int) -> HttpRequestView {
    HttpRequestView { method: Method::Get, url: ip_service_url(index), bearer: None, body: None }
}

/// The address that an echo service's reply gives: the body without the
/// whitespace around it, where that is an IPv4 address. A request that got
/// no response gives none; the status code is not looked at.
pub open spec fn address_in(reply: HttpReplyView) -> Option<Seq<char>> {
    match reply {
        HttpReplyView::Response { status, body } => if is_ipv4(trimmed(body)) {
            Some(trimmed(body))
        } else {
            None
        },
        HttpReplyView::Failed { reason } => None,
    }
}

/// Reads the address out of an echo service's reply.
pub fn address_of(reply: &HttpReply) -> (r: Option<String>)
    ensures
        match r {
            Some(ip) => address_in(reply@) == Some(ip@),
            None => address_in(reply@) is None,
        },
{
    match reply {
        HttpReply::Response { status, body } => {
            let candidate = trim(body.as_str());
            if is_ipv4_text(candidate) {
                Some(String::from_str(candidate))
            } else {
                None
            }
        },
        HttpReply::Failed { reason } => None,
    }
}

/// A lookup that waits for the reply of the echo service at `source`.
#[derive(Debug, Clone, Copy, PartialEq, Eq, Structural)]
pub struct Lookup {
    pub source: usize,
}

/// What a lookup does next.
#[derive(Debug, Clone, PartialEq, Eq)]
pub enum LookupStep {
    /// Send `request` and come back with its reply and `state`.
    Ask { state: Lookup, request: HttpRequest },
    /// The lookup has ended with the caller's address.
    Resolved { ip: String },
    /// The lookup has ended: no service gave an address.
    Unavailable,
}

pub enum LookupStepView {
    Ask { state: Lookup, request: HttpRequestView },
    Resolved { ip: Seq<char> },
    Unavailable,
}

impl View for LookupStep {
    type V = LookupStepView;

    open spec fn view(&self) -> LookupStepView {
        match self {
            LookupStep::Ask { state, request } => LookupStepView::Ask {
                state: *state,
                request: request@,
            },
            LookupStep::Resolved { ip } => LookupStepView::Resolved { ip: ip@ },
            LookupStep::Unavailable => LookupStepView::Unavailable,
        }
    }
}

/// Turning to the echo service at `index`: ask it, or give up past the last.
pub open spec fn ask_source(index: int) -> LookupStepView {
    if 0 <= index < IP_SERVICE_COUNT {
        LookupStepView::Ask { state: Lookup { source: index as usize }, request: echo_request(index) }
    } else {
        LookupStepView::Unavailable
    }
}

/// One step of the lookup: a reply that holds an address ends it; any other
/// reply turns it to the next service, each service being asked once.
pub open spec fn lookup_step(state: Lookup, reply: HttpReplyView) -> LookupStepView {
    match address_in(reply) {
        Some(ip) => LookupStepView::Resolved { ip },
        None => ask_source(state.source + 1),
    }
}

fn ask(index: usize) -> (r: LookupStep)
    ensures
        r@ == ask_source(index as int),
{
    match ip_service(index) {
        Some(url) => LookupStep::Ask {
            state: Lookup { source: index },
            request: HttpRequest {
                method: Method::Get,
                url: String::from_str(url),
                bearer: None,
                body: None,
            },
        },
        None => LookupStep::Unavailable,
    }
}

/// Begins a lookup at the first echo service.
pub fn begin_lookup() -> (r: LookupStep)
    ensures
        r@ == ask_source(0),
{
    ask(0)
}

/// Continues a lookup with the reply to the request it asked for last.
pub fn fetch_public_ip(state: Lookup, reply: &HttpReply) -> (r: LookupStep)
    ensures
        r@ == lookup_step(state, reply@),
{
    match address_of(reply) {
        Some(ip) => LookupStep::Resolved { ip },
        None => if state.source < IP_SERVICE_COUNT {
            ask(state.source + 1)
        } else {
            LookupStep::Unavailable
        },
    }
}

/// Where a lookup stands after the replies `replies`, handed to it one by
/// one from `step` on. Replies that come after its end change nothing.
pub open spec fn lookup_run(step: LookupStepView, replies: Seq<HttpReplyView>) -> LookupStepView
    decreases replies.len(),
{
    match step {
        LookupStepView::Ask { state, request } => if replies.len() == 0 {
            step
        } else {
            lookup_run(lookup_step(state, replies[0]), replies.drop_first())
        },
        _ => step,
    }
}

/// While the replies hold no address, the lookup asks the services in the
/// order of the list, one after the other.
pub proof fn lemma_lookup_in_order(from: int, replies: Seq<HttpReplyView>)
    requires
        0 <= from,
        forall|j: int| 0 <= j < replies.len() ==> address_in(#[trigger] replies[j]) is None,
    ensures
        lookup_run(ask_source(from), replies) == ask_source(from + replies.len()),
    decreases replies.len(),
{
    if replies.len() > 0 && from < IP_SERVICE_COUNT {
        let rest = replies.drop_first();
        assert forall|j: int| 0 <= j < rest.len() implies address_in(#[trigger] rest[j]) is None by {
            assert(rest[j] == replies[j + 1]);
        }
        lemma_lookup_in_order(from + 1, rest);
    }
}

/// The lookup gives the address of the first service, in the order of the
/// list, whose reply holds one: replies without an address are passed over,
/// and replies of later services do not matter.
pub proof fn lemma_lookup_first_address(replies: Seq<HttpReplyView>, k: int)
    requires
        0 <= k < replies.len(),
        k < IP_SERVICE_COUNT,
        address_in(replies[k]) is Some,
        forall|j: int| 0 <= j < k ==> address_in(#[trigger] replies[j]) is None,
    ensures
        lookup_run(ask_source(0), replies) == (LookupStepView::Resolved {
            ip: address_in(replies[k])->0,
        }),
{
    lemma_lookup_from(0, replies, k);
}

proof fn lemma_lookup_from(from: int, replies: Seq<HttpReplyView>, k: int)
    requires
        0 <= from,
        0 <= k < replies.len(),
        from + k < IP_SERVICE_COUNT,
        address_in(replies[k]) is Some,
        forall|j: int| 0 <= j < k ==> address_in(#[trigger] replies[j]) is None,
    ensures
        lookup_run(ask_source(from), replies) == (LookupStepView::Resolved {
            ip: address_in(replies[k])->0,
        }),
    decreases k,
{
    let rest = replies.drop_first();
    if k == 0 {
        let ended = lookup_step(Lookup { source: from as usize }, replies[0]);
        assert(lookup_run(ended, rest) == ended);
    } else {
        assert(rest[k - 1] == replies[k]);
        assert forall|j: int| 0 <= j < k - 1 implies address_in(#[trigger] rest[j]) is None by {
            assert(rest[j] == replies[j + 1]);
        }
        lemma_lookup_from(from + 1, rest, k - 1);
    }
}

/// Where no service's reply holds an address, the lookup ends without one
/// once every service has been asked.
pub proof fn lemma_lookup_exhausted(replies: Seq<HttpReplyView>)
    requires
        replies.len() >= IP_SERVICE_COUNT,
        forall|j: int| 0 <= j < IP_SERVICE_COUNT ==> address_in(#[trigger] replies[j]) is None,
    ensures
        lookup_run(ask_source(0), replies) == LookupStepView::Unavailable,
{
    let asked = replies.take(IP_SERVICE_COUNT as int);
    lemma_lookup_in_order(0, asked);
    lemma_lookup_run_split(ask_source(0), replies, IP_SERVICE_COUNT as int);
    let rest = replies.skip(IP_SERVICE_COUNT as int);
    assert(lookup_run(LookupStepView::Unavailable, rest) == LookupStepView::Unavailable);
}

/// Handing over the replies in two parts is handing them over at once.
pub proof fn lemma_lookup_run_split(step: LookupStepView, replies: Seq<HttpReplyView>, k: int)
    requires
        0 <= k <= replies.len(),
    ensures
        lookup_run(step, replies) == lookup_run(lookup_run(step, replies.take(k)), replies.skip(k)),
    decreases k,
{
    if k == 0 {
        assert(replies.skip(0) =~= replies);
        assert(replies.take(0).len() == 0);
        assert(lookup_run(step, replies.take(0)) == step);
    } else {
        match step {
            LookupStepView::Ask { state, request } => {
                let next = lookup_step(state, replies[0]);
                let rest = replies.drop_first();
                lemma_lookup_run_split(next, rest, k - 1);
                assert(rest.take(k - 1) =~= replies.take(k).drop_first());
                assert(rest.skip(k - 1) =~= replies.skip(k));
                assert(replies.take(k)[0] == replies[0]);
            },
            _ => {
                assert(lookup_run(step, replies.take(k)) == step);
                assert(lookup_run(step, replies.skip(k)) == step);
            },
        }
    }
}

} // verus!
