//! Decimal numbers as they stand in a version: digits only, no sign, no
//! leading zero.

use crate::text::Span;
use vstd::prelude::*;

verus! {

/// `c` is one of the ten ASCII digits.
pub open spec fn is_digit(c: char) -> bool {
    '0' <= c && c <= '9'
}

/// The number that the digit `c` stands for.
pub open spec fn digit_value(c: char) -> nat {
    (c as u32 - '0' as u32) as nat
}

/// The digit that stands for `d`, a number below ten.
pub open spec fn digit_char(d: nat) -> char {
    (d + '0' as u32) as char
}

/// Every character of `s` is a digit.
pub open spec fn all_digits(s: Seq<char>) -> bool {
    forall|i: int| 0 <= i < s.len() ==> is_digit(#[trigger] s[i])
}

/// The number that the digits `s` denote, read from the left.
pub open spec fn digits_value(s: Seq<char>) -> nat
    decreases s.len(),
{
    if s.len() == 0 {
        0
    } else {
        digits_value(s.drop_last()) * 10 + digit_value(s.last())
    }
}

/// `s` is a number written without a sign and without a leading zero: the
/// single digit `0`, or digits of which the first is not `0`.
pub open spec fn is_canonical(s: Seq<char>) -> bool {
    &&& s.len() >= 1
    &&& all_digits(s)
    &&& s[0] == '0' ==> s.len() == 1
}

/// The value of a version component: that of a canonical number which fits
/// in 64 bits. Anything else has no value.
pub open spec fn component_value(s: Seq<char>) -> Option<u64> {
    if is_canonical(s) && digits_value(s) <= u64::MAX {
        Some(digits_value(s) as u64)
    } else {
        None
    }
}

/// The canonical way to write `n`.
pub open spec fn decimal(n: nat) -> Seq<char>
    decreases n,
{
    if n < 10 {
        seq![digit_char(n)]
    } else {
        decimal(n / 10).push(digit_char(n % 10))
    }
}

/// The digits before a position denote no more than all the digits.
pub proof fn lemma_value_of_prefix(s: Seq<char>, k: int)
    requires
        0 <= k <= s.len(),
    ensures
        digits_value(s.take(k)) <= digits_value(s),
    decreases s.len(),
{
    if k == s.len() {
        assert(s.take(k) == s);
    } else {
        lemma_value_of_prefix(s.drop_last(), k);
        assert(s.drop_last().take(k) == s.take(k));
    }
}

/// Digits of which the first is not `0` denote a number that is not zero.
pub proof fn lemma_value_positive(s: Seq<char>)
    requires
        s.len() >= 1,
        all_digits(s),
        s[0] != '0',
    ensures
        digits_value(s) >= 1,
    decreases s.len(),
{
    if s.len() == 1 {
        assert(s.drop_last().len() == 0);
        assert(digits_value(s.drop_last()) == 0);
        assert(is_digit(s[0]));
    } else {
        assert(s.drop_last()[0] == s[0]);
        lemma_value_positive(s.drop_last());
    }
}

/// What `decimal` writes is canonical and denotes the number written.
pub proof fn lemma_decimal_denotes(n: nat)
    ensures
        is_canonical(decimal(n)),
        digits_value(decimal(n)) == n,
        n != 0 ==> decimal(n)[0] != '0',
    decreases n,
{
    if n < 10 {
        let s = decimal(n);
        assert(s.drop_last().len() == 0);
        assert(digits_value(s.drop_last()) == 0);
    } else {
        lemma_decimal_denotes(n / 10);
        let head = decimal(n / 10);
        let s = decimal(n);
        assert(s.drop_last() == head);
        assert(s[0] == head[0]);
    }
}

/// A canonical number is written the way `decimal` writes its value.
pub proof fn lemma_canonical_is_decimal(s: Seq<char>)
    requires
        is_canonical(s),
    ensures
        decimal(digits_value(s)) == s,
    decreases s.len(),
{
    let head = s.drop_last();
    assert(is_digit(s.last()));
    if s.len() == 1 {
        assert(head.len() == 0);
        assert(digits_value(head) == 0);
        assert(decimal(digits_value(s)) == s);
    } else {
        assert(head[0] == s[0]);
        lemma_value_positive(head);
        lemma_canonical_is_decimal(head);
        let n = digits_value(s);
        assert(n / 10 == digits_value(head));
        assert(n % 10 == digit_value(s.last()));
        assert(decimal(n) == decimal(n / 10).push(digit_char(n % 10)));
        assert(decimal(n) == s);
    }
}

/// A version component has the value `n` exactly when it is `n` written
/// canonically.
pub proof fn lemma_component_is_decimal(s: Seq<char>, n: u64)
    ensures
        component_value(s) == Some(n) <==> s == decimal(n as nat),
{
    lemma_decimal_denotes(n as nat);
    if is_canonical(s) {
        lemma_canonical_is_decimal(s);
    }
}

/// Reads the version component that `span` covers.
pub fn parse_component(chars: &Vec<char>, span: Span) -> (value: Option<u64>)
    requires
        span.within(chars@),
    ensures
        value == component_value(span.of(chars@)),
{
    let ghost s = span.of(chars@);
    let len = span.end - span.start;
    if len == 0 {
        return None;
    }
    if chars[span.start] == '0' {
        if len == 1 {
            proof {
                assert(is_digit(s[0]));
                assert(s.drop_last().len() == 0);
                assert(digits_value(s.drop_last()) == 0);
            }
            return Some(0);
        }
        assert(s[0] == '0');
        return None;
    }
    let mut value: u64 = 0;
    let mut k: usize = 0;
    proof {
        assert(s.take(0).len() == 0);
    }
    while k < len
        invariant
            span.within(chars@),
            s == span.of(chars@),
            len == span.end - span.start,
            len >= 1,
            s[0] != '0',
            k <= len,
            all_digits(s.take(k as int)),
            value == digits_value(s.take(k as int)),
        decreases len - k,
    {
        let c = chars[span.start + k];
        assert(c == s[k as int]);
        if !(c >= '0' && c <= '9') {
            return None;
        }
        let digit: u64 = (c as u32 - '0' as u32) as u64;
        proof {
            let next = s.take(k + 1);
            assert(next.drop_last() == s.take(k as int));
            assert(next.last() == c);
            assert(digits_value(next) == value * 10 + digit);
            lemma_value_of_prefix(s, k + 1);
            assert forall|i: int| 0 <= i < next.len() implies is_digit(#[trigger] next[i]) by {
                if i < k {
                    assert(next[i] == s.take(k as int)[i]);
                }
            }
        }
        let scaled = match value.checked_mul(10) {
            Some(scaled) => scaled,
            None => {
                return None;
            },
        };
        value = match scaled.checked_add(digit) {
            Some(sum) => sum,
            None => {
                return None;
            },
        };
        k += 1;
    }
    proof {
        assert(s.take(len as int) == s);
    }
    Some(value)
}

/// The text of one digit.
fn digit_text(d: u64) -> (text: &'static str)
    requires
        d < 10,
    ensures
        text@ == seq![digit_char(d as nat)],
{
    proof {
        reveal_strlit("0");
        reveal_strlit("1");
        reveal_strlit("2");
        reveal_strlit("3");
        reveal_strlit("4");
        reveal_strlit("5");
        reveal_strlit("6");
        reveal_strlit("7");
        reveal_strlit("8");
        reveal_strlit("9");
    }
    let text = if d == 0 {
        "0"
    } else if d == 1 {
        "1"
    } else if d == 2 {
        "2"
    } else if d == 3 {
        "3"
    } else if d == 4 {
        "4"
    } else if d == 5 {
        "5"
    } else if d == 6 {
        "6"
    } else if d == 7 {
        "7"
    } else if d == 8 {
        "8"
    } else {
        "9"
    };
    assert(text@ =~= seq![digit_char(d as nat)]);
    text
}

/// Writes `n` canonically.
pub fn decimal_text(n: u64) -> (text: String)
    ensures
        text@ == decimal(n as nat),
    decreases n,
{
    if n < 10 {
        digit_text(n).to_owned()
    } else {
        let mut text = decimal_text(n / 10);
        text.append(digit_text(n % 10));
        text
    }
}

} // verus!
