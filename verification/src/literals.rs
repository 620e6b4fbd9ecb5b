//! Verified parsing of literal token text: integers, decimal (float)
//! literals, and exact string comparison. The node classifier uses these to
//! decide whether a token's text is well formed for its kind.

use vstd::prelude::*;

verus! {

/// Whether `c` is a decimal digit.
pub open spec fn is_digit(c: char) -> bool {
    48 <= c as u32 <= 57
}

/// The numeric value of the digit `c`.
pub open spec fn digit_of(c: char) -> int {
    c as u32 - 48
}

/// Whether every character of `s` is a decimal digit.
pub open spec fn all_digits(s: Seq<char>) -> bool {
    forall|i: int| 0 <= i < s.len() ==> is_digit(#[trigger] s[i])
}

/// The value of `s` read as a decimal numeral (meaningful when
/// `all_digits(s)` holds; leading zeroes are allowed).
pub open spec fn digits_val(s: Seq<char>) -> int
    decreases s.len(),
{
    if s.len() == 0 {
        0
    } else {
        digits_val(s.drop_last()) * 10 + digit_of(s.last())
    }
}

/// The value of a decimal numeral is never negative.
pub proof fn lemma_digits_val_nonneg(s: Seq<char>)
    requires
        all_digits(s),
    ensures
        digits_val(s) >= 0,
    decreases s.len(),
{
    if s.len() > 0 {
        assert(all_digits(s.drop_last()));
        lemma_digits_val_nonneg(s.drop_last());
    }
}

/// Extending a numeral on the right can only keep or grow its value.
pub proof fn lemma_digits_val_prefix_le(s: Seq<char>, k: int)
    requires
        all_digits(s),
        0 <= k <= s.len(),
    ensures
        digits_val(s.subrange(0, k)) <= digits_val(s),
    decreases s.len() - k,
{
    if k == s.len() {
        assert(s.subrange(0, k) =~= s);
    } else {
        let a = s.subrange(0, k);
        let b = s.subrange(0, k + 1);
        assert(b.drop_last() =~= a);
        assert(all_digits(a));
        lemma_digits_val_nonneg(a);
        assert(digits_val(b) == digits_val(a) * 10 + digit_of(b.last()));
        lemma_digits_val_prefix_le(s, k + 1);
    }
}

/// Returns the index at which the digit run starting at `from` ends: every
/// character before it (from `from` on) is a digit, and it is either the
/// end of the string or the first non-digit.
fn scan_digits(s: &str, from: usize, n: usize) -> (r: usize)
    requires
        n == s@.len(),
        from <= n,
    ensures
        from <= r <= n,
        all_digits(s@.subrange(from as int, r as int)),
        r < n ==> !is_digit(s@[r as int]),
{
    let mut i = from;
    while i < n
        invariant
            from <= i <= n,
            n == s@.len(),
            all_digits(s@.subrange(from as int, i as int)),
        decreases n - i,
    {
        let c = s.get_char(i);
        let cv = c as u32;
        if cv < 48 || cv > 57 {
            return i;
        }
        proof {
            let p = s@.subrange(from as int, i as int);
            let q = s@.subrange(from as int, i + 1 as int);
            assert forall|k: int| 0 <= k < q.len() implies is_digit(q[k]) by {
                if k < q.len() - 1 {
                    assert(q[k] == p[k]);
                } else {
                    assert(q[k] == s@[i as int]);
                }
            }
        }
        i = i + 1;
    }
    i
}

/// The `i32` value denoted by `s` as an optionally signed decimal numeral,
/// or `None` when `s` is not such a numeral or its value does not fit.
pub open spec fn parse_int_text(s: Seq<char>) -> Option<i32> {
    if s.len() > 0 && s[0] == '-' {
        let d = s.subrange(1, s.len() as int);
        if d.len() > 0 && all_digits(d) && digits_val(d) <= 0x8000_0000 {
            Some((-digits_val(d)) as i32)
        } else {
            None
        }
    } else {
        if s.len() > 0 && all_digits(s) && digits_val(s) <= 0x7fff_ffff {
            Some(digits_val(s) as i32)
        } else {
            None
        }
    }
}

/// Reads `s` as an optionally signed decimal `i32`, exactly as
/// `parse_int_text` describes.
pub fn parse_i32(s: &str) -> (r: Option<i32>)
    ensures
        r == parse_int_text(s@),
{
    let n = s.unicode_len();
    let neg = n > 0 && s.get_char(0) == '-';
    let start: usize = if neg {
        1
    } else {
        0
    };
    let ghost dp = s@.subrange(start as int, n as int);
    proof {
        if start == 0 {
            assert(dp =~= s@);
        }
    }
    if n == start {
        return None;
    }
    let e = scan_digits(s, start, n);
    if e < n {
        proof {
            assert(!is_digit(dp[e - start]));
        }
        return None;
    }
    proof {
        assert(s@.subrange(start as int, e as int) =~= dp);
        assert(all_digits(dp));
    }
    let mut acc: u64 = 0;
    let mut i = start;
    while i < n
        invariant
            start <= i <= n,
            n == s@.len(),
            neg ==> start == 1 && s@.len() > 0 && s@[0] == '-',
            !neg ==> start == 0 && !(s@.len() > 0 && s@[0] == '-'),
            start == 0 ==> dp == s@,
            dp == s@.subrange(start as int, n as int),
            all_digits(dp),
            acc == digits_val(dp.subrange(0, i - start)),
            acc <= 0x8000_0000,
        decreases n - i,
    {
        let c = s.get_char(i);
        proof {
            assert(dp[i - start] == s@[i as int]);
            assert(is_digit(dp[i - start]));
        }
        let cv = c as u32;
        let d = (cv - 48) as u64;
        proof {
            let p = dp.subrange(0, i - start);
            let q = dp.subrange(0, i + 1 - start);
            assert(q.drop_last() =~= p);
            assert(q.last() == dp[i - start]);
        }
        acc = acc * 10 + d;
        i = i + 1;
        proof {
            let p = dp.subrange(0, i - 1 - start);
            let q = dp.subrange(0, i - start);
            assert(q.len() > 0);
            assert(q.drop_last() =~= p);
            assert(digits_val(q) == digits_val(p) * 10 + digit_of(q.last()));
            assert(acc == digits_val(q));
        }
        if acc > 0x8000_0000 {
            proof {
                lemma_digits_val_prefix_le(dp, i - start);
                assert(digits_val(dp) > 0x8000_0000);
            }
            return None;
        }
    }
    proof {
        assert(dp.subrange(0, i - start) =~= dp);
    }
    if neg {
        if acc == 0x8000_0000 {
            Some(i32::MIN)
        } else {
            Some(-(acc as i32))
        }
    } else {
        if acc == 0x8000_0000 {
            None
        } else {
            Some(acc as i32)
        }
    }
}

/// The index of the first `'.'` in `s` (meaningful when one is present).
pub open spec fn first_dot(s: Seq<char>) -> int
    decreases s.len(),
{
    if s.len() == 0 {
        0
    } else if s[0] == '.' {
        0
    } else {
        1 + first_dot(s.subrange(1, s.len() as int))
    }
}

/// Whether `s` contains a `'.'`.
pub open spec fn has_dot(s: Seq<char>) -> bool {
    exists|i: int| 0 <= i < s.len() && s[i] == '.'
}

/// When `s` contains a dot, `first_dot` names the least index holding one.
pub proof fn lemma_first_dot(s: Seq<char>)
    requires
        has_dot(s),
    ensures
        0 <= first_dot(s) < s.len(),
        s[first_dot(s)] == '.',
        forall|j: int| 0 <= j < first_dot(s) ==> s[j] != '.',
    decreases s.len(),
{
    if s.len() > 0 && s[0] != '.' {
        let t = s.subrange(1, s.len() as int);
        assert(has_dot(t)) by {
            let i = choose|i: int| 0 <= i < s.len() && s[i] == '.';
            assert(t[i - 1] == '.');
        }
        lemma_first_dot(t);
        assert forall|j: int| 0 <= j < first_dot(s) implies s[j] != '.' by {
            if j > 0 {
                assert(s[j] == t[j - 1]);
            }
        }
    }
}

/// Whether `b` (with any leading sign already stripped) is a decimal
/// literal body: one or more digits, optionally followed by `'.'` and one
/// or more further digits.
pub open spec fn float_body_ok(b: Seq<char>) -> bool {
    if b.len() == 0 {
        false
    } else if has_dot(b) {
        let i = first_dot(b);
        i > 0 && all_digits(b.subrange(0, i)) && i + 1 < b.len() && all_digits(
            b.subrange(i + 1, b.len() as int),
        )
    } else {
        all_digits(b)
    }
}

/// Whether `s` is a decimal (float) literal: an optional `'-'`, then a
/// digit run, then optionally `'.'` and another digit run.
pub open spec fn float_text_ok(s: Seq<char>) -> bool {
    if s.len() > 0 && s[0] == '-' {
        float_body_ok(s.subrange(1, s.len() as int))
    } else {
        float_body_ok(s)
    }
}

/// Decides `float_text_ok` for the text of a float token.
pub fn is_float_literal(s: &str) -> (r: bool)
    ensures
        r == float_text_ok(s@),
{
    let n = s.unicode_len();
    let neg = n > 0 && s.get_char(0) == '-';
    let start: usize = if neg {
        1
    } else {
        0
    };
    let ghost b = s@.subrange(start as int, n as int);
    proof {
        if start == 0 {
            assert(b =~= s@);
        }
    }
    if n == start {
        return false;
    }
    let e = scan_digits(s, start, n);
    proof {
        assert forall|k: int| 0 <= k < e - start implies is_digit(b[k]) by {
            assert(b[k] == s@.subrange(start as int, e as int)[k]);
        }
    }
    if e == start {
        // The body opens with a non-digit, so no reading makes it valid.
        proof {
            assert(b[0] == s@[start as int]);
            assert(!is_digit(b[0]));
            if has_dot(b) {
                lemma_first_dot(b);
                if first_dot(b) > 0 {
                    assert(b.subrange(0, first_dot(b))[0] == b[0]);
                }
            }
        }
        return false;
    }
    if e == n {
        // The whole body is one digit run.
        proof {
            assert(b =~= s@.subrange(start as int, e as int));
            if has_dot(b) {
                lemma_first_dot(b);
                assert(is_digit(b[first_dot(b)]));
                assert(('.' as u32) == 46);
            }
        }
        return true;
    }
    // s[e] is the first non-digit of the body and digits precede it.
    let c = s.get_char(e);
    proof {
        assert(b[e - start] == s@[e as int]);
        assert(!is_digit(b[e - start]));
    }
    if c != '.' {
        proof {
            if has_dot(b) {
                lemma_first_dot(b);
                let f = first_dot(b);
                if f < e - start {
                    assert(is_digit(b[f]));
                    assert(('.' as u32) == 46);
                } else if f == e - start {
                    assert(b[f] == s@[e as int]);
                } else {
                    assert(!all_digits(b.subrange(0, f))) by {
                        assert(b.subrange(0, f)[e - start] == b[e - start]);
                    }
                }
            } else {
                assert(!all_digits(b)) by {
                    assert(!is_digit(b[e - start]));
                }
            }
        }
        return false;
    }
    // A dot sits right after the leading digit run.
    proof {
        assert(has_dot(b)) by {
            assert(b[e - start] == '.');
        }
        lemma_first_dot(b);
        let f = first_dot(b);
        if f < e - start {
            assert(is_digit(b[f]));
            assert(('.' as u32) == 46);
        }
        if f > e - start {
            assert(b[e - start] != '.');
        }
        assert(f == e - start);
        assert(all_digits(b.subrange(0, f))) by {
            assert(forall|k: int| 0 <= k < f ==> b.subrange(0, f)[k] == b[k]);
        }
    }
    if e + 1 == n {
        // Trailing dot with no fraction digits.
        return false;
    }
    let frac_start = e + 1;
    let e2 = scan_digits(s, frac_start, n);
    let ghost tail = b.subrange(e + 1 - start, b.len() as int);
    proof {
        assert(tail.len() > 0);
    }
    if e2 < n {
        proof {
            assert(tail[e2 - frac_start] == s@[e2 as int]);
            assert(!all_digits(tail));
        }
        return false;
    }
    proof {
        assert(tail =~= s@.subrange(frac_start as int, n as int));
        assert(all_digits(tail));
        assert(first_dot(b) + 1 < b.len());
    }
    true
}

/// Whether two string slices hold the same characters.
pub fn str_eq(a: &str, b: &str) -> (r: bool)
    ensures
        r == (a@ == b@),
{
    let n = a.unicode_len();
    let m = b.unicode_len();
    if n != m {
        return false;
    }
    let mut i: usize = 0;
    while i < n
        invariant
            0 <= i <= n,
            n == a@.len(),
            n == b@.len(),
            forall|j: int| 0 <= j < i ==> a@[j] == b@[j],
        decreases n - i,
    {
        if a.get_char(i) != b.get_char(i) {
            return false;
        }
        i = i + 1;
    }
    proof {
        assert(a@ =~= b@);
    }
    true
}

} // verus!
