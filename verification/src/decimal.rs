//! Decimal numerals: how integers are written as text and read back.

use vstd::prelude::*;
use vstd::string::StrSliceExecFns;
use vstd::string::StringExecFns;

verus! {

/// Whether `c` is one of the ten decimal digits.
pub open spec fn is_digit(c: char) -> bool {
    '0' <= c && c <= '9'
}

/// The digit character that stands for `d`, for `d` below ten.
pub open spec fn digit_char(d: nat) -> char
    recommends
        d < 10,
{
    ((d + 48) as u8) as char
}

/// The number a digit character stands for.
pub open spec fn digit_value(c: char) -> nat
    recommends
        is_digit(c),
{
    (c as nat - 48) as nat
}

/// Whether every character of `s` is a decimal digit.
pub open spec fn all_digits(s: Seq<char>) -> bool {
    forall|i: int| 0 <= i < s.len() ==> is_digit(#[trigger] s[i])
}

/// Whether `s` is a numeral: one or more decimal digits.
pub open spec fn is_numeral(s: Seq<char>) -> bool {
    s.len() > 0 && all_digits(s)
}

/// The number that a sequence of digits denotes, most significant digit first.
pub open spec fn digits_value(s: Seq<char>) -> nat
    decreases s.len(),
{
    if s.len() == 0 {
        0
    } else {
        digits_value(s.drop_last()) * 10 + digit_value(s.last())
    }
}

/// The shortest numeral for `n`: no leading zero, except for zero itself.
pub open spec fn numeral_of(n: nat) -> Seq<char>
    decreases n,
{
    if n < 10 {
        seq![digit_char(n)]
    } else {
        numeral_of(n / 10).push(digit_char(n % 10))
    }
}

/// How a signed integer is written: a minus sign before the numeral of a negative number.
pub open spec fn signed_numeral_of(i: int) -> Seq<char> {
    if i < 0 {
        seq!['-'] + numeral_of((-i) as nat)
    } else {
        numeral_of(i as nat)
    }
}

/// What an unsigned field reads as: an optional plus sign, then a numeral whose
/// value is at most `max`. Anything else reads as nothing.
pub open spec fn unsigned_reading(s: Seq<char>, max: nat) -> Option<nat> {
    let body = if s.len() > 0 && s[0] == '+' {
        s.drop_first()
    } else {
        s
    };
    if is_numeral(body) && digits_value(body) <= max {
        Some(digits_value(body))
    } else {
        None
    }
}

/// What a signed field reads as: an optional sign, then a numeral whose signed
/// value lies between `min` and `max`. Anything else reads as nothing.
pub open spec fn signed_reading(s: Seq<char>, min: int, max: int) -> Option<int>
    recommends
        min <= 0 <= max,
{
    if s.len() > 0 && s[0] == '-' {
        let body = s.drop_first();
        if is_numeral(body) && -(digits_value(body) as int) >= min {
            Some(-(digits_value(body) as int))
        } else {
            None
        }
    } else {
        match unsigned_reading(s, max as nat) {
            Some(v) => Some(v as int),
            None => None,
        }
    }
}

/// A numeral is never empty, holds digits only, and denotes the number it was
/// written for.
pub proof fn lemma_numeral_of(n: nat)
    ensures
        is_numeral(numeral_of(n)),
        digits_value(numeral_of(n)) == n,
    decreases n,
{
    if n < 10 {
        let s = numeral_of(n);
        assert(s.drop_last() =~= Seq::<char>::empty());
        assert(digits_value(s.drop_last()) == 0);
        assert(s.last() == digit_char(n));
    } else {
        lemma_numeral_of(n / 10);
        let s = numeral_of(n);
        let head = numeral_of(n / 10);
        assert(s.drop_last() =~= head);
        assert(s.last() == digit_char(n % 10));
        assert forall|i: int| 0 <= i < s.len() implies is_digit(#[trigger] s[i]) by {
            if i < head.len() {
                assert(s[i] == head[i]);
            }
        }
    }
}

/// Appending digits never lowers the value: every prefix of a digit sequence
/// denotes at most what the whole sequence denotes.
pub proof fn lemma_prefix_value(s: Seq<char>, k: int)
    requires
        all_digits(s),
        0 <= k <= s.len(),
    ensures
        digits_value(s.subrange(0, k)) <= digits_value(s),
    decreases s.len() - k,
{
    if k == s.len() {
        assert(s.subrange(0, k) =~= s);
    } else {
        lemma_prefix_value(s, k + 1);
        let longer = s.subrange(0, k + 1);
        assert(longer.drop_last() =~= s.subrange(0, k));
    }
}

/// The one-character text of the digit `d`.
fn digit_text(d: u8) -> (r: &'static str)
    requires
        d < 10,
    ensures
        r@ == seq![digit_char(d as nat)],
{
    proof {
        reveal_strlit("0");
        reveal_strlit("1");
        reveal_strlit("2");
        reveal_strlit("3");
        reveal_strlit("4");
        reveal_strlit("5");
        reveal_strlit("6");
        reveal_strlit("7");
        reveal_strlit("8");
        reveal_strlit("9");
    }
    let r = if d == 0 {
        "0"
    } else if d == 1 {
        "1"
    } else if d == 2 {
        "2"
    } else if d == 3 {
        "3"
    } else if d == 4 {
        "4"
    } else if d == 5 {
        "5"
    } else if d == 6 {
        "6"
    } else if d == 7 {
        "7"
    } else if d == 8 {
        "8"
    } else {
        "9"
    };
    assert(r@ =~= seq![digit_char(d as nat)]);
    r
}

/// Writes `n` in decimal.
pub fn render_unsigned(n: u128) -> (r: String)
    ensures
        r@ == numeral_of(n as nat),
    decreases n,
{
    if n < 10 {
        String::from_str(digit_text(n as u8))
    } else {
        let mut text = render_unsigned(n / 10);
        text.append(digit_text((n % 10) as u8));
        assert(text@ =~= numeral_of(n as nat));
        text
    }
}

/// Writes `i` in decimal, with a minus sign if it is negative.
pub fn render_signed(i: i32) -> (r: String)
    ensures
        r@ == signed_numeral_of(i as int),
{
    if i < 0 {
        let magnitude: u128 = (0 - (i as i64)) as u128;
        let mut text = String::from_str("-");
        let digits = render_unsigned(magnitude);
        text.append(digits.as_str());
        proof {
            reveal_strlit("-");
            assert(text@ =~= signed_numeral_of(i as int));
        }
        text
    } else {
        render_unsigned(i as u128)
    }
}

/// Reads the digits of `text` from position `start` to its end, as a number of
/// at most `limit`.
fn read_digits(text: &str, start: usize, limit: u64) -> (r: Option<u64>)
    requires
        start <= text@.len(),
        limit >= 9,
    ensures
        r == ({
            let body = text@.subrange(start as int, text@.len() as int);
            if is_numeral(body) && digits_value(body) <= limit {
                Some(digits_value(body) as u64)
            } else {
                None
            }
        }),
{
    let len: usize = text.unicode_len();
    let ghost body = text@.subrange(start as int, len as int);
    let mut acc: u64 = 0;
    let mut seen: usize = 0;
    let mut fits = true;
    assert(body.subrange(0, 0) =~= Seq::<char>::empty());
    for c in it: text.chars()
        invariant
            it.seq() == text@,
            len == text@.len(),
            start <= len,
            limit >= 9,
            seen == it.index(),
            body == text@.subrange(start as int, len as int),
            fits && seen >= start ==> all_digits(body.subrange(0, seen - start)) && acc
                == digits_value(body.subrange(0, seen - start)),
            fits && seen < start ==> acc == 0,
            fits ==> acc <= limit,
            !fits ==> !(all_digits(body) && digits_value(body) <= limit),
    {
        if fits && seen >= start {
            assert(c == body[seen - start]);
            if c >= '0' && c <= '9' {
                let d: u64 = (c as u32 - 48) as u64;
                let ghost longer = body.subrange(0, seen - start + 1);
                proof {
                    assert(longer.drop_last() =~= body.subrange(0, seen - start));
                    assert(longer.last() == c);
                    assert(digits_value(longer) == acc * 10 + d);
                    assert forall|j: int| 0 <= j < longer.len() implies is_digit(
                        #[trigger] longer[j],
                    ) by {
                        if j < seen - start {
                            assert(longer[j] == body.subrange(0, seen - start)[j]);
                        }
                    }
                }
                if acc > (limit - d) / 10 {
                    proof {
                        assert(acc * 10 + d > limit);
                        if all_digits(body) {
                            lemma_prefix_value(body, seen - start + 1);
                        }
                    }
                    fits = false;
                } else {
                    acc = acc * 10 + d;
                }
            } else {
                fits = false;
            }
        }
        seen = seen + 1;
    }
    assert(body.subrange(0, len - start) =~= body);
    if fits && start < len {
        Some(acc)
    } else {
        None
    }
}

/// Reads an unsigned 64-bit field.
pub fn parse_u64(text: &str) -> (r: Option<u64>)
    ensures
        r == match unsigned_reading(text@, u64::MAX as nat) {
            Some(v) => Some(v as u64),
            None => None,
        },
{
    let len: usize = text.unicode_len();
    let start: usize = if len > 0 && text.get_char(0) == '+' {
        1
    } else {
        0
    };
    assert(text@.drop_first() =~= text@.subrange(1, text@.len() as int));
    assert(text@ =~= text@.subrange(0, text@.len() as int));
    read_digits(text, start, u64::MAX)
}

/// Reads a signed 32-bit field.
pub fn parse_i32(text: &str) -> (r: Option<i32>)
    ensures
        r == match signed_reading(text@, i32::MIN as int, i32::MAX as int) {
            Some(v) => Some(v as i32),
            None => None,
        },
{
    let len: usize = text.unicode_len();
    assert(text@.drop_first() =~= text@.subrange(1, text@.len() as int));
    assert(text@ =~= text@.subrange(0, text@.len() as int));
    if len > 0 && text.get_char(0) == '-' {
        match read_digits(text, 1, 2147483648) {
            Some(magnitude) => Some((0 - (magnitude as i64)) as i32),
            None => None,
        }
    } else {
        let start: usize = if len > 0 && text.get_char(0) == '+' {
            1
        } else {
            0
        };
        match read_digits(text, start, 2147483647) {
            Some(magnitude) => Some(magnitude as i32),
            None => None,
        }
    }
}

/// Reading back what was written for an unsigned number gives that number.
pub proof fn lemma_unsigned_round_trip(n: nat, max: nat)
    requires
        n <= max,
    ensures
        unsigned_reading(numeral_of(n), max) == Some(n),
{
    lemma_numeral_of(n);
    let s = numeral_of(n);
    assert(is_digit(s[0]));
}

/// Reading back what was written for a signed number gives that number.
pub proof fn lemma_signed_round_trip(i: int, min: int, max: int)
    requires
        min <= i <= max,
        min <= 0 <= max,
    ensures
        signed_reading(signed_numeral_of(i), min, max) == Some(i),
{
    if i < 0 {
        let digits = numeral_of((-i) as nat);
        lemma_numeral_of((-i) as nat);
        let s = signed_numeral_of(i);
        assert(s[0] == '-');
        assert(s.drop_first() =~= digits);
    } else {
        lemma_numeral_of(i as nat);
        let s = numeral_of(i as nat);
        assert(is_digit(s[0]));
        lemma_unsigned_round_trip(i as nat, max as nat);
    }
}

} // verus!
