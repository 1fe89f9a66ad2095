//! Parsing of the caller-supplied thread-identifier text.
//!
//! The activation entry point receives free-form text. After trimming
//! whitespace, empty text stands for thread id 0 (hook every thread on the
//! desktop); otherwise the text must be a decimal unsigned 32-bit integer,
//! with an optional leading `+`, or activation stops with `Fault::Argument`
//! before any OS hook resource is touched.

use vstd::prelude::*;

use crate::Fault;

verus! {

/// Whitespace as the trimming step understands it (the Unicode
/// `White_Space` set).
pub open spec fn is_space(c: char) -> bool {
    let u = c as u32;
    u == 0x09 || u == 0x0A || u == 0x0B || u == 0x0C || u == 0x0D || u == 0x20
        || u == 0x85 || u == 0xA0 || u == 0x1680
        || (0x2000 <= u && u <= 0x200A)
        || u == 0x2028 || u == 0x2029 || u == 0x202F || u == 0x205F || u == 0x3000
}

/// `s` with leading whitespace removed.
pub open spec fn trim_front(s: Seq<char>) -> Seq<char>
    decreases s.len(),
{
    if s.len() > 0 && is_space(s[0]) {
        trim_front(s.subrange(1, s.len() as int))
    } else {
        s
    }
}

/// `s` with trailing whitespace removed.
pub open spec fn trim_back(s: Seq<char>) -> Seq<char>
    decreases s.len(),
{
    if s.len() > 0 && is_space(s.last()) {
        trim_back(s.drop_last())
    } else {
        s
    }
}

/// `s` with both leading and trailing whitespace removed.
pub open spec fn trimmed(s: Seq<char>) -> Seq<char> {
    trim_back(trim_front(s))
}

/// Decimal digit test.
pub open spec fn is_digit(c: char) -> bool {
    0x30 <= c as u32 && c as u32 <= 0x39
}

/// Numeric value of a decimal digit.
pub open spec fn digit_val(c: char) -> int {
    c as u32 - 0x30
}

pub open spec fn all_digits(s: Seq<char>) -> bool {
    forall|j: int| 0 <= j < s.len() ==> is_digit(s[j])
}

/// Value of a digit string read in base ten.
pub open spec fn dec_val(s: Seq<char>) -> int
    decreases s.len(),
{
    if s.len() == 0 {
        0
    } else {
        dec_val(s.drop_last()) * 10 + digit_val(s.last())
    }
}

/// The digits of a decimal numeral: one optional leading `+` is stripped,
/// as the text form of an unsigned integer allows.
pub open spec fn unsigned_body(s: Seq<char>) -> Seq<char> {
    if s.len() > 0 && s[0] == '+' {
        s.subrange(1, s.len() as int)
    } else {
        s
    }
}

/// Whether `s` is a well-formed decimal numeral whose value fits in `u32`.
pub open spec fn parses_as_u32(s: Seq<char>) -> bool {
    let b = unsigned_body(s);
    b.len() > 0 && all_digits(b) && dec_val(b) <= u32::MAX
}

/// Value of a numeral accepted by `parses_as_u32`.
pub open spec fn numeral_val(s: Seq<char>) -> int {
    dec_val(unsigned_body(s))
}

/// The thread identifier an argument text stands for: empty (after
/// trimming) means 0, a decimal `u32` numeral means its value, and anything
/// else is rejected.
pub open spec fn thread_id_result(s: Seq<char>) -> Result<u32, Fault> {
    let t = trimmed(s);
    if t.len() == 0 {
        Ok(0u32)
    } else if parses_as_u32(t) {
        Ok((numeral_val(t) as u32))
    } else {
        Err(Fault::Argument)
    }
}

/// A digit string's value is never negative.
proof fn lemma_dec_val_nonneg(s: Seq<char>)
    requires
        all_digits(s),
    ensures
        dec_val(s) >= 0,
    decreases s.len(),
{
    if s.len() > 0 {
        assert(all_digits(s.drop_last()));
        lemma_dec_val_nonneg(s.drop_last());
    }
}

/// Reading more digits never lowers the value: the value of a prefix bounds
/// the value of the whole digit string from below.
proof fn lemma_dec_val_prefix(s: Seq<char>, k: int)
    requires
        0 <= k <= s.len(),
        all_digits(s),
    ensures
        dec_val(s.take(k)) <= dec_val(s),
    decreases s.len() - k,
{
    if k == s.len() {
        assert(s.take(k) =~= s);
    } else {
        assert(s.take(k + 1).drop_last() =~= s.take(k));
        assert(all_digits(s.take(k + 1)));
        lemma_dec_val_nonneg(s.take(k));
        assert(dec_val(s.take(k + 1)) == dec_val(s.take(k)) * 10 + digit_val(s[k]));
        lemma_dec_val_prefix(s, k + 1);
    }
}

/// Skipping `k` leading whitespace characters computes `trim_front`.
proof fn lemma_trim_front_skip(s: Seq<char>, k: int)
    requires
        0 <= k <= s.len(),
        forall|j: int| 0 <= j < k ==> is_space(s[j]),
        k == s.len() || !is_space(s[k]),
    ensures
        trim_front(s) =~= s.subrange(k, s.len() as int),
    decreases k,
{
    if k == 0 {
        assert(s.subrange(0, s.len() as int) =~= s);
    } else {
        let rest = s.subrange(1, s.len() as int);
        lemma_trim_front_skip(rest, k - 1);
        assert(rest.subrange(k - 1, rest.len() as int) =~= s.subrange(k, s.len() as int));
    }
}

/// Dropping `len - k` trailing whitespace characters computes `trim_back`.
proof fn lemma_trim_back_skip(s: Seq<char>, k: int)
    requires
        0 <= k <= s.len(),
        forall|j: int| k <= j < s.len() ==> is_space(s[j]),
        k == 0 || !is_space(s[k - 1]),
    ensures
        trim_back(s) =~= s.subrange(0, k),
    decreases s.len(),
{
    if s.len() > k {
        assert(is_space(s.last()));
        lemma_trim_back_skip(s.drop_last(), k);
    } else {
        assert(s.subrange(0, k) =~= s);
    }
}

/// Executable form of `is_space`.
fn char_is_space(c: char) -> (r: bool)
    ensures
        r == is_space(c),
{
    let u = c as u32;
    u == 0x09 || u == 0x0A || u == 0x0B || u == 0x0C || u == 0x0D || u == 0x20
        || u == 0x85 || u == 0xA0 || u == 0x1680
        || (0x2000 <= u && u <= 0x200A)
        || u == 0x2028 || u == 0x2029 || u == 0x202F || u == 0x205F || u == 0x3000
}

/// Parses the activation argument into a thread identifier.
///
/// After trimming, empty text yields thread id 0; any other text must be a
/// decimal `u32` numeral (optional leading `+`), and anything else — a stray
/// character, a sign other than `+`, a value past `u32::MAX` — is rejected
/// with `Fault::Argument` so that activation stops before any hook resource
/// is created.
#[verifier::loop_isolation(false)]
pub fn parse_thread_id(text: &Vec<char>) -> (r: Result<u32, Fault>)
    ensures
        r == thread_id_result(text@),
{
    let n: usize = text.len();
    let mut start: usize = 0;
    while start < n && char_is_space(text[start])
        invariant
            n == text@.len(),
            0 <= start <= n,
            forall|j: int| 0 <= j < start ==> is_space(text@[j]),
        decreases n - start,
    {
        start = start + 1;
    }
    let mut end: usize = n;
    while end > start && char_is_space(text[end - 1])
        invariant
            n == text@.len(),
            start <= end <= n,
            forall|j: int| end <= j < n ==> is_space(text@[j]),
        decreases end,
    {
        end = end - 1;
    }
    proof {
        lemma_trim_front_skip(text@, start as int);
        let front = text@.subrange(start as int, n as int);
        lemma_trim_back_skip(front, end - start);
        assert(front.subrange(0, end - start) =~= text@.subrange(start as int, end as int));
    }
    let ghost t = trimmed(text@);
    assert(t =~= text@.subrange(start as int, end as int));

    if start == end {
        return Ok(0u32);
    }

    // One optional leading `+` before the digits.
    let body_start: usize = if text[start] == '+' {
        start + 1
    } else {
        start
    };
    let ghost body = text@.subrange(body_start as int, end as int);
    proof {
        assert(t.len() > 0);
        assert(t[0] == text@[start as int]);
        assert(body =~= unsigned_body(t));
    }

    if body_start == end {
        // A bare sign carries no digits.
        return Err(Fault::Argument);
    }

    let mut acc: u32 = 0;
    let mut i: usize = body_start;
    while i < end
        invariant
            body_start <= i <= end <= n,
            n == text@.len(),
            body == text@.subrange(body_start as int, end as int),
            forall|j: int| body_start <= j < i ==> is_digit(text@[j]),
            acc == dec_val(body.take(i - body_start)),
        decreases end - i,
    {
        let u = text[i] as u32;
        if u < 0x30 || u > 0x39 {
            proof {
                assert(body[i - body_start] == text@[i as int]);
                assert(!is_digit(body[i - body_start]));
            }
            return Err(Fault::Argument);
        }
        let d: u32 = u - 0x30;
        proof {
            assert(body.take(i + 1 - body_start).drop_last() =~= body.take(i - body_start));
            assert(body.take(i + 1 - body_start).last() == text@[i as int]);
        }
        if acc > (u32::MAX - d) / 10 {
            proof {
                if all_digits(body) {
                    assert(dec_val(body.take(i + 1 - body_start)) > u32::MAX);
                    lemma_dec_val_prefix(body, i + 1 - body_start);
                }
            }
            return Err(Fault::Argument);
        }
        acc = acc * 10 + d;
        i = i + 1;
    }
    proof {
        assert(body.take(end - body_start) =~= body);
        assert forall|j: int| 0 <= j < body.len() implies is_digit(body[j]) by {
            assert(body[j] == text@[body_start + j]);
        }
        assert(parses_as_u32(t));
    }
    Ok(acc)
}

} // verus!
