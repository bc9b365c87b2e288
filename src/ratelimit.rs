//! Decisions of the registry client on each response: deliver the body,
//! wait out a rate limit and repeat the request, or give up.

use vstd::prelude::*;

verus! {

/// HTTP status of a rate-limited response.
pub const TOO_MANY_REQUESTS: u16 = 429;

/// What the client does with a response.
#[derive(PartialEq, Eq, Structural, Debug)]
pub enum RequestStep {
    /// The response carries the body asked for.
    Deliver,
    /// Rate limited: wait this many seconds, then send the same request again.
    Retry(u64),
    /// The request failed.
    Reject,
}

pub open spec fn is_digit(c: char) -> bool {
    '0' <= c && c <= '9'
}

pub open spec fn all_digits(s: Seq<char>) -> bool {
    forall|i: int| 0 <= i < s.len() ==> is_digit(#[trigger] s[i])
}

/// The number written by the decimal digits `s`.
pub open spec fn decimal_value(s: Seq<char>) -> int
    decreases s.len(),
{
    if s.len() == 0 {
        0
    } else {
        decimal_value(s.drop_last()) * 10 + (s.last() as int - '0' as int)
    }
}

/// The seconds that a reset header states: one or more decimal digits whose
/// value fits in `u64`.
pub open spec fn header_seconds(s: Seq<char>) -> Option<u64> {
    if s.len() > 0 && all_digits(s) && decimal_value(s) <= u64::MAX {
        Some(decimal_value(s) as u64)
    } else {
        None
    }
}

/// The step taken on a response with `status` whose reset header is `reset`.
pub open spec fn request_step_spec(status: u16, reset: Option<Seq<char>>) -> RequestStep {
    if status == 429 {
        match reset {
            Some(h) => match header_seconds(h) {
                Some(n) => if n < u64::MAX {
                    RequestStep::Retry((n + 1) as u64)
                } else {
                    RequestStep::Reject
                },
                None => RequestStep::Reject,
            },
            None => RequestStep::Reject,
        }
    } else if 200 <= status < 300 {
        RequestStep::Deliver
    } else {
        RequestStep::Reject
    }
}

proof fn lemma_prefix_value_bounded(s: Seq<char>, i: int)
    requires
        all_digits(s),
        0 <= i <= s.len(),
    ensures
        0 <= decimal_value(s.take(i)) <= decimal_value(s),
    decreases s.len(),
{
    if s.len() > 0 {
        let d = s.drop_last();
        assert(all_digits(d)) by {
            assert forall|j: int| 0 <= j < d.len() implies is_digit(#[trigger] d[j]) by {
                assert(d[j] == s[j]);
            }
        }
        assert(is_digit(s[s.len() - 1]));
        if i == s.len() {
            assert(s.take(i) =~= s);
            lemma_prefix_value_bounded(d, d.len() as int);
            assert(d.take(d.len() as int) =~= d);
        } else {
            assert(s.take(i) =~= d.take(i));
            lemma_prefix_value_bounded(d, i);
        }
    }
}

/// Reads the seconds of a reset header.
pub fn parse_seconds(s: &str) -> (r: Option<u64>)
    ensures
        r == header_seconds(s@),
{
    let n = s.unicode_len();
    if n == 0 {
        return None;
    }
    let mut value: u64 = 0;
    let mut i: usize = 0;
    while i < n
        invariant
            n == s@.len(),
            i <= n,
            all_digits(s@.take(i as int)),
            value as int == decimal_value(s@.take(i as int)),
        decreases n - i,
    {
        let c = s.get_char(i);
        if c < '0' || c > '9' {
            assert(!all_digits(s@));
            return None;
        }
        let d = (c as u32 - '0' as u32) as u64;
        assert(s@.take(i + 1).drop_last() =~= s@.take(i as int));
        assert(all_digits(s@.take(i + 1))) by {
            assert forall|j: int| 0 <= j < i + 1 implies is_digit(#[trigger] s@.take(i + 1)[j]) by {
                if j < i {
                    assert(s@.take(i + 1)[j] == s@.take(i as int)[j]);
                }
            }
        }
        match value.checked_mul(10) {
            Some(m) => match m.checked_add(d) {
                Some(v) => {
                    value = v;
                },
                None => {
                    proof {
                        lemma_overflow_rejects(s@, i as int);
                    }
                    return None;
                },
            },
            None => {
                proof {
                    lemma_overflow_rejects(s@, i as int);
                }
                return None;
            },
        }
        i = i + 1;
    }
    assert(s@.take(n as int) =~= s@);
    Some(value)
}

proof fn lemma_overflow_rejects(s: Seq<char>, i: int)
    requires
        0 <= i < s.len(),
        all_digits(s.take(i + 1)),
        decimal_value(s.take(i + 1)) > u64::MAX,
    ensures
        header_seconds(s) is None,
{
    if all_digits(s) {
        lemma_prefix_value_bounded(s, i + 1);
    }
}

/// Decides what to do with a response of `status` whose `X-Ratelimit-Reset`
/// header reads `reset`: a rate-limited response is retried after the
/// announced seconds plus one; a success delivers its body; anything else,
/// or a rate limit without a readable reset, fails.
pub fn request_step(status: u16, reset: Option<&str>) -> (r: RequestStep)
    ensures
        r == request_step_spec(status, match reset {
            Some(h) => Some(h@),
            None => None,
        }),
{
    if status == TOO_MANY_REQUESTS {
        match reset {
            Some(h) => match parse_seconds(h) {
                Some(n) => if n < u64::MAX {
                    RequestStep::Retry(n + 1)
                } else {
                    RequestStep::Reject
                },
                None => RequestStep::Reject,
            },
            None => RequestStep::Reject,
        }
    } else if 200 <= status && status < 300 {
        RequestStep::Deliver
    } else {
        RequestStep::Reject
    }
}

/// A rate-limited response that announces `n` seconds is retried, after a
/// wait of `n + 1` seconds, never sooner than the announced reset.
pub proof fn lemma_rate_limit_waits_past_reset(h: Seq<char>)
    requires
        header_seconds(h) matches Some(n) && n < u64::MAX,
    ensures
        request_step_spec(429, Some(h)) matches RequestStep::Retry(w) && w == header_seconds(h)->0
            + 1 && w > header_seconds(h)->0,
{
}

} // verus!
