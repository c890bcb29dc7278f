//! Path parameters: reading a quote identifier from its text.

use vstd::prelude::*;
use crate::text::{chars_of, decimal_digits, decimal_text, digit_char};

verus! {

/// `c` is one of the ten ASCII digits.
pub open spec fn is_digit(c: char) -> bool {
    '0' <= c && c <= '9'
}

/// The number that the digit `c` stands for.
pub open spec fn digit_value(c: char) -> int {
    c as int - '0' as int
}

/// Every character of `s` is a digit.
pub open spec fn all_digits(s: Seq<char>) -> bool {
    forall|i: int| 0 <= i < s.len() ==> is_digit(#[trigger] s[i])
}

/// The number that a sequence of digits denotes in base ten; 0 for the empty
/// sequence.
pub open spec fn digits_value(s: Seq<char>) -> int
    decreases s.len(),
{
    if s.len() == 0 {
        0
    } else {
        digits_value(s.drop_last()) * 10 + digit_value(s.last())
    }
}

/// Whether `s` starts with a sign.
pub open spec fn has_sign(s: Seq<char>) -> bool {
    s.len() > 0 && (s[0] == '-' || s[0] == '+')
}

/// The identifier that `s` denotes: an optional `+` or `-`, then one or more
/// digits, the whole within the range of `i64`. Anything else denotes none.
pub open spec fn parse_id_of(s: Seq<char>) -> Option<i64> {
    let digits = if has_sign(s) { s.skip(1) } else { s };
    let magnitude = digits_value(digits);
    let value = if has_sign(s) && s[0] == '-' { -magnitude } else { magnitude };
    if digits.len() > 0 && all_digits(digits) && i64::MIN <= value <= i64::MAX {
        Some(value as i64)
    } else {
        None
    }
}

/// The value of a prefix of a digit sequence never exceeds the value of the
/// whole, and neither is negative.
proof fn lemma_prefix_value(s: Seq<char>, k: int)
    requires
        all_digits(s),
        0 <= k <= s.len(),
    ensures
        0 <= digits_value(s.take(k)) <= digits_value(s),
    decreases s.len(),
{
    if k == s.len() {
        assert(s.take(k) =~= s);
        if s.len() > 0 {
            lemma_prefix_value(s.drop_last(), s.len() - 1);
            assert(s.drop_last().take(s.len() - 1) =~= s.drop_last());
            assert(is_digit(s[s.len() - 1]));
        }
    } else {
        lemma_prefix_value(s.drop_last(), k);
        assert(s.drop_last().take(k) =~= s.take(k));
        assert(is_digit(s[s.len() - 1]));
    }
}

/// The digits of a number are digits, at least one, and denote the number.
proof fn lemma_digits_read_back(n: nat)
    ensures
        decimal_digits(n).len() > 0,
        all_digits(decimal_digits(n)),
        digits_value(decimal_digits(n)) == n,
    decreases n,
{
    if n < 10 {
        let s = seq![digit_char(n as int)];
        assert(s.drop_last() =~= Seq::<char>::empty());
        assert(digits_value(s) == digits_value(s.drop_last()) * 10 + digit_value(s.last()));
    } else {
        let head = decimal_digits(n / 10);
        let s = head.push(digit_char((n % 10) as int));
        lemma_digits_read_back(n / 10);
        assert(s.drop_last() =~= head);
        assert(s.last() == digit_char((n % 10) as int));
        assert forall|i: int| 0 <= i < s.len() implies is_digit(#[trigger] s[i]) by {
            if i < head.len() {
                assert(s[i] == head[i]);
            }
        }
    }
}

/// The decimal text of an identifier denotes that identifier, and is one
/// path segment that starts with a digit or a minus sign.
pub proof fn decimal_text_reads_back(id: i64)
    ensures
        parse_id_of(decimal_text(id as int)) == Some(id),
        decimal_text(id as int).len() > 0,
        !decimal_text(id as int).contains('/'),
        is_digit(decimal_text(id as int)[0]) || decimal_text(id as int)[0] == '-',
{
    let s = decimal_text(id as int);
    if id < 0 {
        let digits = decimal_digits((-id) as nat);
        lemma_digits_read_back((-id) as nat);
        assert(s.skip(1) =~= digits);
        assert(s[0] == '-');
        assert forall|i: int| 0 <= i < s.len() implies s[i] != '/' by {
            if i > 0 {
                assert(s[i] == digits[i - 1]);
                assert(is_digit(digits[i - 1]));
            }
        }
    } else {
        lemma_digits_read_back(id as nat);
        assert(is_digit(s[0]));
        assert forall|i: int| 0 <= i < s.len() implies s[i] != '/' by {
            assert(is_digit(s[i]));
        }
    }
}

/// Reads the identifier that the characters from `start` on denote.
#[verifier::loop_isolation(false)]
pub(crate) fn parse_id_at(chars: &Vec<char>, start: usize) -> (id: Option<i64>)
    requires
        start <= chars.len(),
    ensures
        id == parse_id_of(chars@.skip(start as int)),
{
    let n = chars.len();
    let ghost s = chars@.skip(start as int);
    if start == n {
        return None;
    }
    let first = chars[start];
    let negative = first == '-';
    let signed = first == '-' || first == '+';
    let begin: usize = if signed { start + 1 } else { start };
    let ghost digits = if signed { s.skip(1) } else { s };
    assert(s[0] == first);
    assert(has_sign(s) == signed);
    assert(digits =~= chars@.skip(begin as int));
    if begin == n {
        return None;
    }
    let mut acc: i64 = 0;
    let mut i: usize = begin;
    while i < n
        invariant
            begin <= i <= n,
            n == chars.len(),
            digits == chars@.skip(begin as int),
            all_digits(digits.take(i - begin)),
            acc == if negative {
                -digits_value(digits.take(i - begin))
            } else {
                digits_value(digits.take(i - begin))
            },
        decreases n - i,
    {
        let c = chars[i];
        let ghost k = i - begin;
        assert(digits[k] == c);
        if c < '0' || c > '9' {
            assert(!is_digit(digits[k]));
            return None;
        }
        let d: i128 = (c as u32 - '0' as u32) as i128;
        let step: i128 = if negative { -d } else { d };
        let next: i128 = (acc as i128) * 10 + step;
        proof {
            assert(digits.take(k + 1).drop_last() =~= digits.take(k));
            assert(digits.take(k + 1).last() == c);
            assert(d == digit_value(c));
            assert forall|j: int| 0 <= j < k + 1 implies is_digit(
                #[trigger] digits.take(k + 1)[j],
            ) by {
                if j < k {
                    assert(digits.take(k)[j] == digits.take(k + 1)[j]);
                }
            }
        }
        if next < i64::MIN as i128 || next > i64::MAX as i128 {
            proof {
                if all_digits(digits) {
                    lemma_prefix_value(digits, k + 1);
                }
            }
            return None;
        }
        acc = next as i64;
        i = i + 1;
    }
    assert(digits.take(i - begin) =~= digits);
    Some(acc)
}

/// Reads a quote identifier from a path parameter, as `str::parse::<i64>`
/// does: `Some` for an optionally signed run of digits within the range of
/// `i64`, `None` for everything else, the empty text included.
pub fn parse_id(param: &str) -> (id: Option<i64>)
    ensures
        id == parse_id_of(param@),
{
    let chars = chars_of(param);
    assert(chars@.skip(0) =~= chars@);
    parse_id_at(&chars, 0)
}

} // verus!
