//! Base-ten numerals: the text of a number, and the number of a text.
//!
//! Numbers travel in two places: as the value of a query parameter, written
//! on the way out, and as the bytes of a response header, read on the way in.

use vstd::prelude::*;
use vstd::string::StringExecFns;

verus! {

/// The byte that writes the digit `d`.
pub open spec fn digit_byte(d: nat) -> u8
    recommends
        d < 10,
{
    (48 + d) as u8
}

/// Whether `b` is one of the bytes `0` to `9`.
pub open spec fn is_digit(b: u8) -> bool {
    48 <= b <= 57
}

/// The bytes of `n` in base ten, without sign and without leading zeros.
pub open spec fn decimal_bytes(n: nat) -> Seq<u8>
    decreases n,
{
    if n < 10 {
        seq![digit_byte(n)]
    } else {
        decimal_bytes(n / 10).push(digit_byte(n % 10))
    }
}

/// The text of `n` in base ten: the bytes of `decimal_bytes`, as characters.
pub open spec fn decimal_text(n: nat) -> Seq<char> {
    Seq::new(decimal_bytes(n).len(), |i: int| decimal_bytes(n)[i] as char)
}

/// Whether every byte of `s` is a digit.
pub open spec fn all_digits(s: Seq<u8>) -> bool {
    forall|i: int| 0 <= i < s.len() ==> is_digit(#[trigger] s[i])
}

/// The number that the digits `s` write, most significant first.
pub open spec fn digits_value(s: Seq<u8>) -> nat
    decreases s.len(),
{
    if s.len() == 0 {
        0
    } else {
        digits_value(s.drop_last()) * 10 + (s.last() - 48) as nat
    }
}

/// What is left of `s` once one leading `+` is taken away.
pub open spec fn unsigned_part(s: Seq<u8>) -> Seq<u8> {
    if s.len() > 0 && s[0] == 43 {
        s.skip(1)
    } else {
        s
    }
}

/// The number that `s` writes, if it writes one that fits 64 bits: an
/// optional `+`, then one digit or more, and nothing else.
pub open spec fn parse_decimal(s: Seq<u8>) -> Option<u64> {
    let digits = unsigned_part(s);
    if digits.len() > 0 && all_digits(digits) && digits_value(digits) <= u64::MAX {
        Some(digits_value(digits) as u64)
    } else {
        None
    }
}

/// A prefix of a run of digits writes no more than the whole run.
proof fn lemma_prefix_value(s: Seq<u8>, k: int)
    requires
        0 <= k <= s.len(),
        all_digits(s),
    ensures
        digits_value(s.take(k)) <= digits_value(s),
    decreases s.len() - k,
{
    if k == s.len() {
        assert(s.take(k) =~= s);
    } else {
        lemma_prefix_value(s, k + 1);
        assert(s.take(k + 1).drop_last() =~= s.take(k));
        assert(is_digit(s[k]));
    }
}

/// The digit `d` as a one-character text.
fn digit_str(d: u64) -> (s: &'static str)
    requires
        d < 10,
    ensures
        s@ == seq![digit_byte(d as nat) as char],
{
    proof {
        reveal_strlit("0");
        reveal_strlit("1");
        reveal_strlit("2");
        reveal_strlit("3");
        reveal_strlit("4");
        reveal_strlit("5");
        reveal_strlit("6");
        reveal_strlit("7");
        reveal_strlit("8");
        reveal_strlit("9");
    }
    let s = if d == 0 {
        "0"
    } else if d == 1 {
        "1"
    } else if d == 2 {
        "2"
    } else if d == 3 {
        "3"
    } else if d == 4 {
        "4"
    } else if d == 5 {
        "5"
    } else if d == 6 {
        "6"
    } else if d == 7 {
        "7"
    } else if d == 8 {
        "8"
    } else {
        "9"
    };
    assert(s@ =~= seq![digit_byte(d as nat) as char]);
    s
}

/// The text of the digits that are still to be written before those that
/// are: that of `rest`, and nothing once `rest` is used up.
spec fn leading_text(rest: nat) -> Seq<char> {
    if rest == 0 {
        Seq::empty()
    } else {
        decimal_text(rest)
    }
}

/// The text of a number is that of its tenth, then its last digit.
proof fn lemma_text_step(n: nat)
    requires
        n > 0,
    ensures
        decimal_text(n) == leading_text(n / 10) + seq![digit_byte(n % 10) as char],
{
    assert(decimal_text(n) =~= leading_text(n / 10) + seq![digit_byte(n % 10) as char]);
}

/// Writes `n` in base ten.
pub fn format_decimal(n: u64) -> (text: String)
    ensures
        text@ == decimal_text(n as nat),
{
    let mut rest: u64 = n / 10;
    let mut text: String = String::from_str(digit_str(n % 10));
    proof {
        if n > 0 {
            lemma_text_step(n as nat);
        }
        assert(decimal_text(n as nat) =~= leading_text(rest as nat) + text@);
    }
    while rest > 0
        invariant
            decimal_text(n as nat) == leading_text(rest as nat) + text@,
        decreases rest,
    {
        let digit = String::from_str(digit_str(rest % 10));
        proof {
            lemma_text_step(rest as nat);
            assert(leading_text(rest as nat) + text@ =~= leading_text((rest / 10) as nat) + (digit@
                + text@));
        }
        text = digit.concat(text.as_str());
        rest = rest / 10;
    }
    assert(leading_text(0) + text@ =~= text@);
    text
}

/// Reads the number that `bytes` writes in base ten.
///
/// `None` stands for every text that writes no 64-bit number: an empty one,
/// one with a byte that is no digit (a sign other than one leading `+`, a
/// blank, a letter), one whose number is too large.
pub fn read_decimal(bytes: &[u8]) -> (number: Option<u64>)
    ensures
        number == parse_decimal(bytes@),
{
    let start: usize = if bytes.len() > 0 && bytes[0] == 43 {
        1
    } else {
        0
    };
    let ghost digits = unsigned_part(bytes@);
    assert(digits =~= bytes@.skip(start as int));
    if start == bytes.len() {
        return None;
    }
    let mut value: u64 = 0;
    let mut at: usize = start;
    while at < bytes.len()
        invariant
            start <= at <= bytes.len(),
            digits == unsigned_part(bytes@),
            digits == bytes@.skip(start as int),
            all_digits(digits.take(at - start)),
            value == digits_value(digits.take(at - start)),
        decreases bytes.len() - at,
    {
        let b: u8 = bytes[at];
        let ghost seen = digits.take(at - start);
        let ghost next = digits.take(at - start + 1);
        proof {
            assert(next.drop_last() =~= seen);
            assert(next.last() == b);
        }
        if b < 48 || b > 57 {
            assert(!is_digit(digits[at - start]));
            return None;
        }
        let d: u64 = (b - 48) as u64;
        if value > (u64::MAX - d) / 10 {
            proof {
                assert(digits_value(next) > u64::MAX);
                if all_digits(digits) {
                    lemma_prefix_value(digits, at - start + 1);
                }
            }
            return None;
        }
        value = value * 10 + d;
        at = at + 1;
        proof {
            assert forall|i: int| 0 <= i < next.len() implies is_digit(#[trigger] next[i]) by {
                if i < seen.len() {
                    assert(next[i] == seen[i]);
                }
            }
        }
    }
    assert(digits.take(at - start) =~= digits);
    Some(value)
}

/// A number written by `decimal_bytes` is read back by `parse_decimal`.
pub proof fn lemma_decimal_round_trip(n: nat)
    requires
        n <= u64::MAX,
    ensures
        parse_decimal(decimal_bytes(n)) == Some(n as u64),
{
    lemma_decimal_bytes(n);
    assert(decimal_bytes(n)[0] != 43);
}

/// The bytes of a number are digits, one at least, and write that number.
pub proof fn lemma_decimal_bytes(n: nat)
    ensures
        decimal_bytes(n).len() > 0,
        all_digits(decimal_bytes(n)),
        digits_value(decimal_bytes(n)) == n,
    decreases n,
{
    if n < 10 {
        let s = decimal_bytes(n);
        assert(s.drop_last() =~= Seq::<u8>::empty());
        assert(digits_value(s.drop_last()) == 0);
    } else {
        lemma_decimal_bytes(n / 10);
        let s = decimal_bytes(n);
        assert(s.drop_last() =~= decimal_bytes(n / 10));
    }
}

} // verus!
