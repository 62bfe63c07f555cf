//! Decimal numerals: reading a signed integer from text and writing one as
//! text.

use vstd::prelude::*;
use crate::text::{chars_of, is_space, is_word};

verus! {

/// Whether `c` is one of the ten decimal digits.
pub open spec fn is_digit(c: char) -> bool {
    '0' <= c <= '9'
}

/// The value of the digit `c`; zero for any other character.
pub open spec fn digit_value(c: char) -> nat {
    if is_digit(c) {
        (c as int - '0' as int) as nat
    } else {
        0
    }
}

/// The digit whose value is `d`.
pub open spec fn digit_char(d: int) -> char {
    if d == 0 {
        '0'
    } else if d == 1 {
        '1'
    } else if d == 2 {
        '2'
    } else if d == 3 {
        '3'
    } else if d == 4 {
        '4'
    } else if d == 5 {
        '5'
    } else if d == 6 {
        '6'
    } else if d == 7 {
        '7'
    } else if d == 8 {
        '8'
    } else {
        '9'
    }
}

/// Whether `s` is a non-empty string of decimal digits.
pub open spec fn is_digits(s: Seq<char>) -> bool {
    &&& s.len() > 0
    &&& forall|i: int| 0 <= i < s.len() ==> is_digit(#[trigger] s[i])
}

/// The number that the digits of `s` denote, the most significant first.
pub open spec fn digits_value(s: Seq<char>) -> nat
    decreases s.len(),
{
    if s.len() == 0 {
        0
    } else {
        10 * digits_value(s.drop_last()) + digit_value(s.last())
    }
}

/// The integer that `s` denotes as a decimal numeral: an optional sign, `+`
/// or `-`, followed by at least one digit and nothing else. `None` where `s`
/// is not of that form.
pub open spec fn numeral_value(s: Seq<char>) -> Option<int> {
    if s.len() > 0 && (s.first() == '-' || s.first() == '+') {
        if !is_digits(s.drop_first()) {
            None
        } else if s.first() == '-' {
            Some(-(digits_value(s.drop_first()) as int))
        } else {
            Some(digits_value(s.drop_first()) as int)
        }
    } else if is_digits(s) {
        Some(digits_value(s) as int)
    } else {
        None
    }
}

/// The `i32` that `s` denotes as a decimal numeral. `None` where `s` is no
/// numeral or its value does not fit.
pub open spec fn numeral_i32(s: Seq<char>) -> Option<i32> {
    match numeral_value(s) {
        Some(v) => if i32::MIN <= v <= i32::MAX {
            Some(v as i32)
        } else {
            None
        },
        None => None,
    }
}

/// The digits of `n`, the most significant first, without leading zeros.
pub open spec fn digits_of(n: nat) -> Seq<char>
    decreases n,
{
    if n < 10 {
        seq![digit_char(n as int)]
    } else {
        digits_of(n / 10).push(digit_char((n % 10) as int))
    }
}

/// The decimal numeral of `n`: its digits, after a `-` where `n` is negative.
pub open spec fn decimal(n: int) -> Seq<char> {
    if n < 0 {
        seq!['-'] + digits_of((-n) as nat)
    } else {
        digits_of(n as nat)
    }
}

/// The value of a prefix of a digit string is no more than the value of the
/// whole.
pub proof fn lemma_digits_value_prefix(s: Seq<char>, k: int)
    requires
        0 <= k <= s.len(),
    ensures
        digits_value(s.take(k)) <= digits_value(s),
    decreases s.len(),
{
    if k == s.len() {
        assert(s.take(k) == s);
    } else {
        assert(s.drop_last().take(k) == s.take(k));
        lemma_digits_value_prefix(s.drop_last(), k);
    }
}

/// The digits of a number are a non-empty string of digits that denotes the
/// number.
pub proof fn lemma_digits_of(n: nat)
    ensures
        is_digits(digits_of(n)),
        digits_value(digits_of(n)) == n,
    decreases n,
{
    let last = digit_char((n % 10) as int);
    assert(is_digit(last) && digit_value(last) == n % 10);
    assert(digits_of(n).last() == last);
    if n >= 10 {
        lemma_digits_of(n / 10);
        assert(digits_of(n).drop_last() == digits_of(n / 10));
    } else {
        assert(digits_of(n).drop_last() == Seq::<char>::empty());
        assert(digits_value(Seq::<char>::empty()) == 0);
    }
}

/// A decimal numeral denotes the integer it was written from, and that
/// integer is read back as an `i32` exactly when it fits.
pub proof fn lemma_decimal_round_trip(n: int)
    ensures
        numeral_value(decimal(n)) == Some(n),
        numeral_i32(decimal(n)) == if i32::MIN <= n <= i32::MAX {
            Some(n as i32)
        } else {
            None
        },
{
    if n < 0 {
        lemma_digits_of((-n) as nat);
        assert(decimal(n).drop_first() == digits_of((-n) as nat));
    } else {
        lemma_digits_of(n as nat);
    }
}

/// A decimal numeral is a word: it is not empty and holds no white space.
pub proof fn lemma_decimal_is_word(n: int)
    ensures
        is_word(decimal(n)),
{
    if n < 0 {
        lemma_digits_of((-n) as nat);
        assert forall|i: int| 0 <= i < decimal(n).len() implies !is_space(
            #[trigger] decimal(n)[i],
        ) by {
            if i > 0 {
                assert(decimal(n)[i] == digits_of((-n) as nat)[i - 1]);
            }
        }
    } else {
        lemma_digits_of(n as nat);
    }
}

/// Reads `s` as a decimal `i32`: an optional sign and then digits only.
#[verifier::loop_isolation(false)]
pub fn parse_i32(s: &str) -> (r: Option<i32>)
    ensures
        r == numeral_i32(s@),
{
    let chars = chars_of(s);
    let n: usize = chars.len();
    if n == 0 {
        return None;
    }
    let negative = chars[0] == '-';
    let first: usize = if chars[0] == '-' || chars[0] == '+' {
        1
    } else {
        0
    };
    let ghost body = s@.skip(first as int);
    assert(first == 1 ==> body == s@.drop_first());
    assert(first == 0 ==> body == s@);
    if first == n {
        return None;
    }
    let mut value: i64 = 0;
    let mut i: usize = first;
    assert(body.take(0) == Seq::<char>::empty());
    while i < n
        invariant
            chars@ == s@,
            n == s@.len(),
            first <= i <= n,
            body == s@.skip(first as int),
            forall|k: int| 0 <= k < i - first ==> is_digit(#[trigger] body[k]),
            value == digits_value(body.take(i - first)),
            0 <= value <= 2147483648,
        decreases n - i,
    {
        let c = chars[i];
        assert(c == body[i - first]);
        if !('0' <= c && c <= '9') {
            assert(!is_digit(body[i - first]));
            return None;
        }
        let digit: i64 = (c as u32 - '0' as u32) as i64;
        assert(body.take(i - first + 1).drop_last() == body.take(i - first));
        value = value * 10 + digit;
        if value > 2147483648 {
            proof {
                lemma_digits_value_prefix(body, i - first + 1);
            }
            return None;
        }
        i = i + 1;
    }
    assert(body.take(n - first) == body);
    if negative {
        Some((-value) as i32)
    } else if value > 2147483647 {
        None
    } else {
        Some(value as i32)
    }
}

/// The one-character text of the digit whose value is `d`.
fn digit_text(d: u32) -> (r: &'static str)
    requires
        d < 10,
    ensures
        r@ == seq![digit_char(d as int)],
{
    proof {
        reveal_strlit("0");
        reveal_strlit("1");
        reveal_strlit("2");
        reveal_strlit("3");
        reveal_strlit("4");
        reveal_strlit("5");
        reveal_strlit("6");
        reveal_strlit("7");
        reveal_strlit("8");
        reveal_strlit("9");
    }
    let r = if d == 0 {
        "0"
    } else if d == 1 {
        "1"
    } else if d == 2 {
        "2"
    } else if d == 3 {
        "3"
    } else if d == 4 {
        "4"
    } else if d == 5 {
        "5"
    } else if d == 6 {
        "6"
    } else if d == 7 {
        "7"
    } else if d == 8 {
        "8"
    } else {
        "9"
    };
    assert(r@ =~= seq![digit_char(d as int)]);
    r
}

/// Appends the digits of `n` to `out`.
fn push_digits(n: u32, out: &mut String)
    ensures
        final(out)@ == old(out)@ + digits_of(n as nat),
    decreases n,
{
    if n >= 10 {
        push_digits(n / 10, out);
    }
    out.append(digit_text(n % 10));
}

/// Writes `n` as a decimal numeral.
pub fn to_decimal(n: i32) -> (r: String)
    ensures
        r@ == decimal(n as int),
{
    let mut out = String::new();
    if n < 0 {
        proof {
            reveal_strlit("-");
        }
        out.append("-");
        assert(out@ =~= seq!['-']);
        push_digits((-(n as i64)) as u32, &mut out);
    } else {
        push_digits(n as u32, &mut out);
        assert(out@ =~= digits_of(n as nat));
    }
    out
}

} // verus!
