//! Rate-limit recovery: reading the retry-after hint of a provider error and
//! deciding, within a retry budget, whether to wait and retry.
use vstd::prelude::*;
use vstd::string::*;
use crate::error::GeneratorError;
use crate::invocation::opt_view;
use crate::text::occurs_in;

verus! {

/// The duration text that the pattern `(?m)^.+try again in (.+)\. Visit.*`
/// captures in a provider error message, if it matches.
pub uninterp spec fn retry_hint_of(message: Seq<char>) -> Option<Seq<char>>;

/// Relies on `regex::Regex::new` and `Regex::captures`: the first capture
/// group of the retry pattern. A capture stands between "try again in " and
/// ". Visit" in the message.
#[verifier::external_body]
fn retry_hint(message: &str) -> (r: Option<String>)
    ensures
        opt_view(r) == retry_hint_of(message@),
        r matches Some(d) ==> occurs_in(message@, "try again in "@ + d@ + ". Visit"@),
{
    let re = regex::Regex::new(r"(?m)^.+try again in (.+)\. Visit.*").ok()?;
    let caps = re.captures(message)?;
    caps.get(1).map(|m| m.as_str().to_string())
}

pub open spec fn is_digit(c: char) -> bool {
    '0' <= c && c <= '9'
}

pub open spec fn digit_value(c: char) -> int {
    c as int - '0' as int
}

pub open spec fn all_digits(s: Seq<char>) -> bool {
    forall|i: int| 0 <= i < s.len() ==> is_digit(#[trigger] s[i])
}

/// The number that a run of decimal digits writes.
pub open spec fn digits_value(s: Seq<char>) -> int
    decreases s.len(),
{
    if s.len() == 0 {
        0
    } else {
        digits_value(s.drop_last()) * 10 + digit_value(s.last())
    }
}

/// Milliseconds written by the digits after a decimal point, read to the
/// third one.
pub open spec fn fraction_ms(f: Seq<char>) -> int {
    if f.len() == 0 {
        0
    } else if f.len() == 1 {
        digit_value(f[0]) * 100
    } else if f.len() == 2 {
        digit_value(f[0]) * 100 + digit_value(f[1]) * 10
    } else {
        digit_value(f[0]) * 100 + digit_value(f[1]) * 10 + digit_value(f[2])
    }
}

/// Whether `w` is a whole number of one to nine digits.
pub open spec fn whole_ok(w: Seq<char>) -> bool {
    1 <= w.len() <= 9 && all_digits(w)
}

/// The milliseconds that a retry hint denotes: `<n>ms`, `<n>m` (minutes), or
/// `<n>s` / `<n>.<f>s` (seconds, the fraction read to the millisecond);
/// `<n>` holds one to nine digits, `<f>` one or more; and `<n>m<seconds>s`,
/// minutes then seconds as above. `None` for anything else.
pub open spec fn duration_ms(t: Seq<char>) -> Option<int> {
    let n = t.len() as int;
    if n >= 2 && t[n - 2] == 'm' && t[n - 1] == 's' {
        let w = t.subrange(0, n - 2);
        if whole_ok(w) { Some(digits_value(w)) } else { None }
    } else if n >= 1 && t[n - 1] == 'm' {
        let w = t.subrange(0, n - 1);
        if whole_ok(w) { Some(digits_value(w) * 60000) } else { None }
    } else if n >= 1 && t[n - 1] == 's' {
        let body = t.subrange(0, n - 1);
        if exists|p: int| 0 <= p < body.len() && body[p] == 'm' {
            let p = choose|p: int| 0 <= p < body.len() && body[p] == 'm';
            let w = body.subrange(0, p);
            match seconds_ms(body.subrange(p + 1, body.len() as int)) {
                Some(sec) => if whole_ok(w) { Some(digits_value(w) * 60000 + sec) } else { None },
                None => None,
            }
        } else {
            seconds_ms(body)
        }
    } else {
        None
    }
}

/// The milliseconds of a seconds count `<n>` or `<n>.<f>` (without its unit).
pub open spec fn seconds_ms(body: Seq<char>) -> Option<int> {
    if exists|p: int| 0 <= p < body.len() && body[p] == '.' {
        let p = choose|p: int| 0 <= p < body.len() && body[p] == '.';
        let w = body.subrange(0, p);
        let f = body.subrange(p + 1, body.len() as int);
        if whole_ok(w) && f.len() >= 1 && all_digits(f) {
            Some(digits_value(w) * 1000 + fraction_ms(f))
        } else {
            None
        }
    } else if whole_ok(body) {
        Some(digits_value(body) * 1000)
    } else {
        None
    }
}

/// A seconds count holds no minutes mark.
proof fn lemma_seconds_reject_mark(body: Seq<char>, q: int)
    requires
        0 <= q < body.len(),
        body[q] == 'm',
    ensures
        seconds_ms(body) is None,
{
    if exists|p: int| 0 <= p < body.len() && body[p] == '.' {
        let p = choose|p: int| 0 <= p < body.len() && body[p] == '.';
        let w = body.subrange(0, p);
        let f = body.subrange(p + 1, body.len() as int);
        if q < p {
            assert(!is_digit(w[q]));
        } else {
            assert(q != p);
            assert(!is_digit(f[q - p - 1]));
        }
    } else {
        assert(!is_digit(body[q]));
    }
}

pub open spec fn pow10(n: nat) -> int
    decreases n,
{
    if n == 0 { 1 } else { 10 * pow10((n - 1) as nat) }
}

/// The value of the digits `t[from..to]`, which are at most nine.
fn whole_value(t: &str, from: usize, to: usize) -> (r: Option<u64>)
    requires
        from <= to <= t@.len(),
    ensures
        r is Some <==> whole_ok(t@.subrange(from as int, to as int)),
        r matches Some(v) ==> v == digits_value(t@.subrange(from as int, to as int)),
        r matches Some(v) ==> v < 1_000_000_000,
{
    if to - from < 1 || to - from > 9 {
        return None;
    }
    let mut acc: u64 = 0;
    let mut k: usize = from;
    while k < to
        invariant
            from <= k <= to <= t@.len(),
            to - from <= 9,
            all_digits(t@.subrange(from as int, k as int)),
            acc == digits_value(t@.subrange(from as int, k as int)),
            acc < pow10((k - from) as nat),
        decreases to - k,
    {
        let c = t.get_char(k);
        if !('0' <= c && c <= '9') {
            assert(t@.subrange(from as int, to as int)[k - from] == c);
            return None;
        }
        let ghost prev = t@.subrange(from as int, k as int);
        let ghost next = t@.subrange(from as int, k + 1);
        assert(next.drop_last() =~= prev);
        assert(pow10((k - from) as nat) <= 100_000_000) by {
            lemma_pow10_mono((k - from) as nat, 8);
            reveal_with_fuel(pow10, 9);
        }
        acc = acc * 10 + (c as u64 - '0' as u64);
        k = k + 1;
        assert(all_digits(next));
    }
    assert(pow10(9) == 1_000_000_000) by {
        reveal_with_fuel(pow10, 10);
    }
    proof { lemma_pow10_mono((to - from) as nat, 9); }
    Some(acc)
}

proof fn lemma_pow10_mono(a: nat, b: nat)
    requires
        a <= b,
    ensures
        pow10(a) <= pow10(b),
        pow10(a) >= 1,
    decreases b,
{
    if b > 0 && a < b {
        lemma_pow10_mono(a, (b - 1) as nat);
    } else if a > 0 {
        lemma_pow10_mono((a - 1) as nat, (a - 1) as nat);
    }
}

/// Reads a retry hint such as `12.5s`, `250ms` or `2m` into milliseconds.
/// Reads the seconds count `t[from..e]` into milliseconds.
fn seconds_value(t: &str, from: usize, e: usize) -> (r: Option<u64>)
    requires
        from <= e <= t@.len(),
    ensures
        match seconds_ms(t@.subrange(from as int, e as int)) {
            Some(v) => r == Some(v as u64) && 0 <= v < 1_000_000_000_000,
            None => r is None,
        },
{
    let ghost body = t@.subrange(from as int, e as int);
    let mut p: usize = from;
    while p < e && t.get_char(p) != '.'
        invariant
            from <= p <= e,
            e <= t@.len(),
            body == t@.subrange(from as int, e as int),
            forall|q: int| 0 <= q < p - from ==> body[q] != '.',
        decreases e - p,
    {
        p = p + 1;
    }
    if p == e {
        assert(!(exists|q: int| 0 <= q < body.len() && body[q] == '.'));
        return match whole_value(t, from, e) {
            Some(v) => Some(v * 1000),
            None => None,
        };
    }
    let ghost rp = p - from;
    assert(body[rp] == '.');
    let ghost w = body.subrange(0, rp);
    let ghost f = body.subrange(rp + 1, body.len() as int);
    assert(w =~= t@.subrange(from as int, p as int));
    assert(f =~= t@.subrange(p + 1, e as int));
    let whole = whole_value(t, from, p);
    let mut k: usize = p + 1;
    let mut digits_ok = k < e;
    while k < e && digits_ok
        invariant
            p + 1 <= k <= e,
            e <= t@.len(),
            digits_ok ==> all_digits(t@.subrange(p + 1, k as int)),
            digits_ok ==> p + 1 < e,
            !digits_ok ==> !all_digits(f) || f.len() == 0,
            f =~= t@.subrange(p + 1, e as int),
        decreases e - k + if digits_ok { 1int } else { 0int },
    {
        let c = t.get_char(k);
        if '0' <= c && c <= '9' {
            assert(t@.subrange(p + 1, k + 1) =~= t@.subrange(p + 1, k as int).push(c));
            k = k + 1;
        } else {
            assert(f[k - (p + 1)] == c);
            digits_ok = false;
        }
    }
    let ghost chosen = choose|q: int| 0 <= q < body.len() && body[q] == '.';
    proof {
        assert(0 <= chosen < body.len() && body[chosen] == '.');
        if chosen != rp {
            assert(chosen > rp);
            let w2 = body.subrange(0, chosen);
            assert(w2[rp] == '.');
            assert(!is_digit(w2[rp]));
            assert(!whole_ok(w2));
        }
    }
    if digits_ok {
        assert(t@.subrange(p + 1, k as int) =~= f);
        assert(chosen == rp) by {
            if chosen > rp {
                assert(f[chosen - (rp + 1)] == '.');
                assert(is_digit(f[chosen - (rp + 1)]));
            }
        }
    }
    match whole {
        None => {
            None
        },
        Some(wv) => {
            if !digits_ok {
                proof {
                    if f.len() >= 1 && all_digits(f) {
                        assert(false);
                    }
                }
                return None;
            }
            let d0 = t.get_char(p + 1);
            assert(f[0] == d0 && is_digit(f[0]));
            let mut frac: u64 = (d0 as u64 - '0' as u64) * 100;
            if p + 2 < e {
                let d1 = t.get_char(p + 2);
                assert(f[1] == d1 && is_digit(f[1]));
                frac = frac + (d1 as u64 - '0' as u64) * 10;
                if p + 3 < e {
                    let d2 = t.get_char(p + 3);
                    assert(f[2] == d2 && is_digit(f[2]));
                    frac = frac + (d2 as u64 - '0' as u64);
                }
            }
            Some(wv * 1000 + frac)
        },
    }
}


pub fn parse_duration_ms(t: &str) -> (r: Option<u64>)
    ensures
        match duration_ms(t@) {
            Some(v) => r == Some(v as u64) && 0 <= v < 100_000_000_000_000,
            None => r is None,
        },
{
    let n = t.unicode_len();
    if n >= 2 && t.get_char(n - 2) == 'm' && t.get_char(n - 1) == 's' {
        return whole_value(t, 0, n - 2);
    }
    if n >= 1 && t.get_char(n - 1) == 'm' {
        return match whole_value(t, 0, n - 1) {
            Some(v) => Some(v * 60000),
            None => None,
        };
    }
    if n < 1 || t.get_char(n - 1) != 's' {
        return None;
    }
    let ghost body = t@.subrange(0, n - 1);
    let mut p: usize = 0;
    while p < n - 1 && t.get_char(p) != 'm'
        invariant
            p <= n - 1,
            n == t@.len(),
            body == t@.subrange(0, n - 1),
            forall|q: int| 0 <= q < p ==> body[q] != 'm',
        decreases n - 1 - p,
    {
        p = p + 1;
    }
    if p == n - 1 {
        assert(!(exists|q: int| 0 <= q < body.len() && body[q] == 'm'));
        return seconds_value(t, 0, n - 1);
    }
    assert(body[p as int] == 'm');
    let ghost chosen = choose|q: int| 0 <= q < body.len() && body[q] == 'm';
    let ghost rest = body.subrange(p + 1, body.len() as int);
    assert(rest =~= t@.subrange(p + 1, n - 1));
    assert(body.subrange(0, p as int) =~= t@.subrange(0, p as int));
    let minutes = whole_value(t, 0, p);
    let secs = seconds_value(t, p + 1, n - 1);
    proof {
        if chosen > p {
            let w2 = body.subrange(0, chosen);
            assert(w2[p as int] == 'm');
            assert(!is_digit(w2[p as int]));
            assert(rest[chosen - p - 1] == 'm');
            lemma_seconds_reject_mark(rest, chosen - p - 1);
        }
    }
    assert(chosen >= p);
    match minutes {
        Some(m) => match secs {
            Some(sv) => {
                assert(chosen == p);
                assert(m < 1_000_000_000 && sv < 1_000_000_000_000);
                Some(m * 60000 + sv)
            },
            None => None,
        },
        None => None,
    }
}

/// What to do after a provider error.
#[derive(Debug, Clone, Copy, PartialEq, Eq, Structural)]
pub enum RetryDecision {
    /// Wait this many milliseconds, then send the identical request again.
    Retry { delay_ms: u64 },
    /// Surface the error unchanged.
    GiveUp,
}

/// The decision after the failure that follows `attempts` retries already
/// made: retry after the hinted duration while the budget of `max_retries`
/// lasts and the hint is readable; give up otherwise.
pub open spec fn retry_decision(hint: Option<Seq<char>>, attempts: u32, max_retries: u32) -> RetryDecision {
    match hint {
        Some(d) => match duration_ms(d) {
            Some(v) => if attempts < max_retries {
                RetryDecision::Retry { delay_ms: v as u64 }
            } else {
                RetryDecision::GiveUp
            },
            None => RetryDecision::GiveUp,
        },
        None => RetryDecision::GiveUp,
    }
}

/// Decides on a provider error whose retry hint has already been extracted.
pub fn decide_retry(hint: Option<String>, attempts: u32, max_retries: u32) -> (r: RetryDecision)
    ensures
        r == retry_decision(opt_view(hint), attempts, max_retries),
{
    match hint {
        Some(d) => match parse_duration_ms(d.as_str()) {
            Some(v) => if attempts < max_retries {
                RetryDecision::Retry { delay_ms: v }
            } else {
                RetryDecision::GiveUp
            },
            None => RetryDecision::GiveUp,
        },
        None => RetryDecision::GiveUp,
    }
}

/// Decides on a provider error message: extracts its retry hint, then
/// decides as `decide_retry` does.
pub fn on_provider_error(message: &str, attempts: u32, max_retries: u32) -> (r: RetryDecision)
    ensures
        r == retry_decision(retry_hint_of(message@), attempts, max_retries),
{
    decide_retry(retry_hint(message), attempts, max_retries)
}

/// Each rate-limit error in a run of consecutive ones is retried once, after
/// its own hinted delay, as long as the run stays within the retry budget: the
/// retry depth equals the number of consecutive failures. The failure that
/// finds the budget spent is given up.
pub proof fn lemma_retry_per_failure(hints: Seq<Seq<char>>, max_retries: u32)
    requires
        hints.len() <= max_retries,
        forall|k: int| 0 <= k < hints.len() ==> (#[trigger] duration_ms(hints[k])) is Some,
    ensures
        forall|k: int| 0 <= k < hints.len() ==> #[trigger] retry_decision(Some(hints[k]), k as u32, max_retries)
            == (RetryDecision::Retry { delay_ms: duration_ms(hints[k])->0 as u64 }),
        forall|h: Option<Seq<char>>| #[trigger] retry_decision(h, max_retries, max_retries) == RetryDecision::GiveUp,
{
    assert forall|k: int| 0 <= k < hints.len() implies #[trigger] retry_decision(Some(hints[k]), k as u32, max_retries)
        == (RetryDecision::Retry { delay_ms: duration_ms(hints[k])->0 as u64 }) by {
        assert(duration_ms(hints[k]) is Some);
    }
}

/// Whether `hint` denotes a readable retry duration.
pub open spec fn readable_hint(hint: Option<Seq<char>>) -> bool {
    hint matches Some(d) && duration_ms(d) is Some
}

/// The error to surface once retrying stops: rate limiting exhausted where
/// the error still carried a readable hint (the budget is spent), else the
/// provider's error unchanged.
pub fn give_up_error(message: String, attempts: u32, max_retries: u32) -> (r: GeneratorError)
    ensures
        readable_hint(retry_hint_of(message@)) && attempts >= max_retries ==> r == GeneratorError::RateLimited(message),
        !(readable_hint(retry_hint_of(message@)) && attempts >= max_retries) ==> r == GeneratorError::Provider(message),
{
    let readable = match retry_hint(message.as_str()) {
        Some(d) => match parse_duration_ms(d.as_str()) {
            Some(_) => true,
            None => false,
        },
        None => false,
    };
    if readable && attempts >= max_retries {
        GeneratorError::RateLimited(message)
    } else {
        GeneratorError::Provider(message)
    }
}

} // verus!
