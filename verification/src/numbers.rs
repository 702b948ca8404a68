//! Canonical decimal integer texts: the grammar, their value, and an exact
//! parser into `i32`. A canonical text is what the standard rendering of an
//! integer produces: an optional minus sign, then digits with no leading
//! zero (and no `-0`).

use vstd::prelude::*;
use crate::date::digit_val;
use crate::date::is_digit;

verus! {

pub open spec fn all_digits(s: Seq<char>) -> bool {
    forall|i: int| 0 <= i < s.len() ==> is_digit(#[trigger] s[i])
}

/// The canonical integer grammar.
pub open spec fn int_text_wf(s: Seq<char>) -> bool {
    if s.len() == 0 {
        false
    } else if s[0] == '-' {
        s.len() >= 2 && all_digits(s.drop_first()) && s[1] != '0'
    } else {
        all_digits(s) && (s.len() == 1 || s[0] != '0')
    }
}

/// The value of a digit string, most significant digit first.
pub open spec fn digits_val(s: Seq<char>) -> int
    decreases s.len(),
{
    if s.len() == 0 {
        0
    } else {
        digits_val(s.drop_last()) * 10 + digit_val(s.last())
    }
}

pub open spec fn int_text_val(s: Seq<char>) -> int {
    if s.len() > 0 && s[0] == '-' {
        -digits_val(s.drop_first())
    } else {
        digits_val(s)
    }
}

/// Canonical texts whose value fits in `i32`.
pub open spec fn int_text_parses_i32(s: Seq<char>) -> bool {
    int_text_wf(s) && i32::MIN <= int_text_val(s) <= i32::MAX
}

pub open spec fn pow10(n: nat) -> int
    decreases n,
{
    if n == 0 {
        1
    } else {
        10 * pow10((n - 1) as nat)
    }
}

proof fn lemma_pow10_pos(n: nat)
    ensures
        pow10(n) >= 1,
    decreases n,
{
    if n > 0 {
        lemma_pow10_pos((n - 1) as nat);
    }
}

proof fn lemma_pow10_mono(a: nat, b: nat)
    requires
        a <= b,
    ensures
        pow10(a) <= pow10(b),
    decreases b,
{
    if a < b {
        lemma_pow10_mono(a, (b - 1) as nat);
        lemma_pow10_pos((b - 1) as nat);
    }
}

proof fn lemma_digits_bounds(s: Seq<char>)
    requires
        all_digits(s),
    ensures
        0 <= digits_val(s) < pow10(s.len()),
    decreases s.len(),
{
    if s.len() > 0 {
        assert(forall|i: int| 0 <= i < s.len() - 1 ==> s.drop_last()[i] == #[trigger] s[i]);
        lemma_digits_bounds(s.drop_last());
        assert(is_digit(s.last()));
    }
}

proof fn lemma_digits_lower(s: Seq<char>)
    requires
        all_digits(s),
        s.len() >= 1,
        s[0] != '0',
    ensures
        digits_val(s) >= pow10((s.len() - 1) as nat),
    decreases s.len(),
{
    if s.len() == 1 {
        assert(is_digit(s[0]));
        assert(s.drop_last().len() == 0);
        assert(digits_val(s.drop_last()) == 0);
        assert(digit_val(s[0]) >= 1);
    } else {
        assert(forall|i: int| 0 <= i < s.len() - 1 ==> s.drop_last()[i] == #[trigger] s[i]);
        assert(s.drop_last()[0] == s[0]);
        lemma_digits_lower(s.drop_last());
        assert(is_digit(s.last()));
    }
}

/// Parses a canonical decimal integer text into `i32`, succeeding exactly on
/// canonical texts whose value is in range.
pub fn parse_i32_text(s: &str) -> (r: Option<i32>)
    ensures
        int_text_parses_i32(s@) ==> r == Some(int_text_val(s@) as i32),
        !int_text_parses_i32(s@) ==> r is None,
{
    let n = s.unicode_len();
    if n == 0 {
        return None;
    }
    let neg = s.get_char(0) == '-';
    let start: usize = if neg {
        1
    } else {
        0
    };
    if n == start {
        return None;
    }
    let ghost digits: Seq<char> = s@.subrange(start as int, n as int);
    proof {
        if neg {
            assert(s@.drop_first() =~= digits);
        }
    }
    // Reject a leading zero unless the whole digit part is exactly "0".
    if s.get_char(start) == '0' && (neg || n - start >= 2) {
        return None;
    }
    // More than ten digits cannot name an i32 even when every character is a
    // digit: the value is at least ten to the tenth.
    if n - start > 10 {
        proof {
            if neg {
                assert(s@.drop_first() =~= digits);
            } else {
                assert(digits =~= s@);
            }
            if int_text_wf(s@) {
                lemma_digits_lower(digits);
                lemma_pow10_mono(10, (digits.len() - 1) as nat);
                reveal_with_fuel(pow10, 11);
            }
        }
        return None;
    }
    let mut acc: i64 = 0;
    let mut i: usize = start;
    while i < n
        invariant
            start <= i <= n,
            n == s@.len(),
            start == if neg { 1int } else { 0int },
            neg ==> s@[0] == '-' && s@[1] != '0',
            !neg ==> s@[0] != '-',
            !neg && n >= 2 ==> s@[0] != '0',
            n - start <= 10,
            n > start,
            digits == s@.subrange(start as int, n as int),
            all_digits(s@.subrange(start as int, i as int)),
            acc == digits_val(s@.subrange(start as int, i as int)),
            0 <= acc < pow10((i - start) as nat),
        decreases n - i,
    {
        let c = s.get_char(i);
        let ghost pre = s@.subrange(start as int, i as int);
        let ghost post = s@.subrange(start as int, i + 1);
        let d = match crate::date::digit_of(c) {
            Some(d) => d,
            None => {
                proof {
                    if neg {
                        assert(s@.drop_first() =~= digits);
                    } else {
                        assert(digits =~= s@);
                    }
                    assert(digits[i - start] == s@[i as int]);
                    assert(!is_digit(digits[i - start]));
                    assert(!int_text_wf(s@));
                }
                return None;
            },
        };
        proof {
            assert(post.drop_last() =~= pre);
            assert(post.last() == s@[i as int]);
            assert forall|j: int| 0 <= j < post.len() implies is_digit(#[trigger] post[j]) by {
                if j < post.len() - 1 {
                    assert(post[j] == pre[j]);
                } else {
                    assert(post[j] == s@[i as int]);
                }
            }
            lemma_digits_bounds(post);
            lemma_pow10_mono((i - start) as nat, 9);
            reveal_with_fuel(pow10, 11);
        }
        acc = acc * 10 + (d as i64);
        i = i + 1;
    }
    proof {
        assert(s@.subrange(start as int, n as int) =~= digits);
        if neg {
            assert(s@.drop_first() =~= digits);
        } else {
            assert(digits =~= s@);
        }
        assert(int_text_wf(s@));
        lemma_pow10_mono((n - start) as nat, 10);
        reveal_with_fuel(pow10, 11);
    }
    if neg {
        if acc > 2147483648i64 {
            return None;
        }
        Some((-acc) as i32)
    } else {
        if acc > 2147483647i64 {
            return None;
        }
        Some(acc as i32)
    }
}

} // verus!
