//! The timeout that `stop` takes on the command line.
//!
//! It is written in decimal: an optional `+` or `-`, then one digit or more,
//! and nothing before, between or behind. A negative timeout waits without
//! bound, and that is also what a missing one means.
//!
//! A text that writes no timeout is refused with what is wrong with it. The
//! text is gone through from the left, and the first thing wrong decides:
//! a place that holds no digit, or the digit at which the number read so far
//! no longer fits an `i32`. That is the order in which the standard library
//! finds fault with an integer, so the reason reads as it does there.

use vstd::prelude::*;

use crate::error::{Error, TimeoutFault};

verus! {

/// The timeout of a `stop` that names none: wait until the container is down.
pub const WAIT_FOREVER: i32 = -1;

/// Whether `c` is one of `0` to `9`.
pub open spec fn is_digit(c: char) -> bool {
    '0' <= c && c <= '9'
}

/// The number that the digit `c` stands for.
pub open spec fn digit_value(c: char) -> int {
    c as int - '0' as int
}

/// Whether `text` is made of decimal digits only.
pub open spec fn all_digits(text: Seq<char>) -> bool {
    forall|i: int| 0 <= i < text.len() ==> is_digit(#[trigger] text[i])
}

/// The number that a string of decimal digits writes; leading zeros count
/// for nothing.
pub open spec fn digits_value(digits: Seq<char>) -> int
    decreases digits.len(),
{
    if digits.len() == 0 {
        0
    } else {
        10 * digits_value(digits.drop_last()) + digit_value(digits.last())
    }
}

/// Whether `text` opens with a sign.
pub open spec fn has_sign(text: Seq<char>) -> bool {
    text.len() > 0 && (text[0] == '+' || text[0] == '-')
}

/// What is left of `text` behind its sign.
pub open spec fn unsigned_part(text: Seq<char>) -> Seq<char> {
    if has_sign(text) {
        text.subrange(1, text.len() as int)
    } else {
        text
    }
}

/// The integer that the digits `digits` write behind a minus sign, where
/// `negative`, or without one.
pub open spec fn signed_value(digits: Seq<char>, negative: bool) -> int {
    if negative {
        -digits_value(digits)
    } else {
        digits_value(digits)
    }
}

/// The integer that `text` writes in decimal, if it writes one.
pub open spec fn decimal(text: Seq<char>) -> Option<int> {
    let digits = unsigned_part(text);
    if digits.len() == 0 || !all_digits(digits) {
        None
    } else {
        Some(signed_value(digits, text[0] == '-'))
    }
}

/// The first thing wrong with `digits`, gone through from the left: a place
/// that holds no digit, or a digit at which the number read so far, under
/// its sign, leaves the range of an `i32`.
pub open spec fn first_fault(digits: Seq<char>, negative: bool) -> Option<TimeoutFault>
    decreases digits.len(),
{
    if digits.len() == 0 {
        None
    } else if first_fault(digits.drop_last(), negative) is Some {
        first_fault(digits.drop_last(), negative)
    } else if !is_digit(digits.last()) {
        Some(TimeoutFault::InvalidDigit)
    } else if signed_value(digits, negative) > i32::MAX {
        Some(TimeoutFault::PosOverflow)
    } else if signed_value(digits, negative) < i32::MIN {
        Some(TimeoutFault::NegOverflow)
    } else {
        None
    }
}

/// What is wrong with `text` as a timeout, if anything is.
pub open spec fn fault_of(text: Seq<char>) -> Option<TimeoutFault> {
    if text.len() == 0 {
        Some(TimeoutFault::Empty)
    } else if unsigned_part(text).len() == 0 {
        Some(TimeoutFault::InvalidDigit)
    } else {
        first_fault(unsigned_part(text), text[0] == '-')
    }
}

/// The timeout that the argument `arg` asks for: [`WAIT_FOREVER`] where
/// there is no argument, else the integer that it writes, or what is wrong
/// with it.
pub open spec fn timeout_of(arg: Option<Seq<char>>) -> Result<i32, TimeoutFault> {
    match arg {
        None => Ok(WAIT_FOREVER),
        Some(text) => match fault_of(text) {
            Some(fault) => Err(fault),
            None => Ok(signed_value(unsigned_part(text), text[0] == '-') as i32),
        },
    }
}

/// A string of digits writes no negative number.
pub proof fn lemma_digits_value_nonnegative(digits: Seq<char>)
    requires
        all_digits(digits),
    ensures
        digits_value(digits) >= 0,
    decreases digits.len(),
{
    if digits.len() > 0 {
        lemma_digits_value_nonnegative(digits.drop_last());
    }
}

/// More digits behind a number never make it smaller.
pub proof fn lemma_digits_value_grows(digits: Seq<char>, k: int)
    requires
        all_digits(digits),
        0 <= k <= digits.len(),
    ensures
        digits_value(digits.take(k)) <= digits_value(digits),
    decreases digits.len(),
{
    if k == digits.len() {
        assert(digits.take(k) =~= digits);
    } else {
        let shorter = digits.drop_last();
        lemma_digits_value_grows(shorter, k);
        lemma_digits_value_nonnegative(shorter);
        assert(shorter.take(k) =~= digits.take(k));
    }
}

/// What is wrong with the beginning of a text is what is wrong with the
/// whole of it: nothing behind the first fault changes the verdict.
pub proof fn lemma_first_fault_stays(digits: Seq<char>, negative: bool, k: int)
    requires
        0 <= k <= digits.len(),
        first_fault(digits.take(k), negative) is Some,
    ensures
        first_fault(digits, negative) == first_fault(digits.take(k), negative),
    decreases digits.len(),
{
    if k == digits.len() {
        assert(digits.take(k) =~= digits);
    } else {
        let shorter = digits.drop_last();
        assert(shorter.take(k) =~= digits.take(k));
        lemma_first_fault_stays(shorter, negative, k);
    }
}

/// Digits are without fault exactly when each of them is a digit and the
/// number that they write, under their sign, fits an `i32`.
pub proof fn lemma_faultless_digits(digits: Seq<char>, negative: bool)
    ensures
        first_fault(digits, negative) is None <==> all_digits(digits) && i32::MIN <= signed_value(
            digits,
            negative,
        ) <= i32::MAX,
    decreases digits.len(),
{
    if digits.len() > 0 {
        let shorter = digits.drop_last();
        lemma_faultless_digits(shorter, negative);
        if all_digits(digits) {
            lemma_digits_value_grows(digits, digits.len() - 1);
            lemma_digits_value_nonnegative(shorter);
        }
        if all_digits(shorter) && is_digit(digits.last()) {
            assert forall|i: int| 0 <= i < digits.len() implies is_digit(#[trigger] digits[i]) by {
                if i < shorter.len() {
                    assert(digits[i] == shorter[i]);
                }
            }
        }
    }
}

/// A text is accepted as a timeout exactly when it writes an integer in
/// decimal and that integer fits an `i32`; the timeout is that integer.
pub proof fn lemma_accepted_timeouts(text: Seq<char>)
    ensures
        timeout_of(Some(text)) is Ok <==> (decimal(text) matches Some(v) && i32::MIN <= v
            <= i32::MAX),
        timeout_of(Some(text)) matches Ok(seconds) ==> decimal(text) == Some(seconds as int),
{
    lemma_faultless_digits(unsigned_part(text), text.len() > 0 && text[0] == '-');
}

/// Read `text` as a decimal integer that fits an `i32`.
fn parse_decimal(text: &str) -> (r: Result<i32, TimeoutFault>)
    ensures
        r == timeout_of(Some(text@)),
{
    let mut signed = false;
    let mut negative = false;
    let mut any = false;
    let mut magnitude: i64 = 0;
    for c in it: text.chars()
        invariant
            it.seq() == text@,
            signed == (it.index() > 0 && has_sign(text@)),
            negative == (signed && text@[0] == '-'),
            ({
                let seen = text@.subrange(if signed { 1int } else { 0int }, it.index() as int);
                &&& first_fault(seen, negative) is None
                &&& magnitude == digits_value(seen)
                &&& any == (seen.len() > 0)
            }),
            0 <= magnitude <= 0x8000_0000,
    {
        let ghost start = if signed { 1int } else { 0int };
        let ghost seen = text@.subrange(start, it.index() as int);
        let ghost digits = unsigned_part(text@);
        if !any && !signed && (c == '+' || c == '-') {
            signed = true;
            negative = c == '-';
        } else {
            let ghost longer = text@.subrange(start, it.index() + 1);
            proof {
                assert(longer.drop_last() =~= seen);
                assert(digits.take(longer.len() as int) =~= longer);
                if first_fault(longer, negative) is Some {
                    lemma_first_fault_stays(digits, negative, longer.len() as int);
                }
            }
            if !(c >= '0' && c <= '9') {
                return Err(TimeoutFault::InvalidDigit);
            }
            let digit: i64 = (c as u32 - '0' as u32) as i64;
            magnitude = magnitude * 10 + digit;
            any = true;
            if !negative && magnitude > 0x7fff_ffff {
                return Err(TimeoutFault::PosOverflow);
            }
            if negative && magnitude > 0x8000_0000 {
                return Err(TimeoutFault::NegOverflow);
            }
        }
    }
    proof {
        let start = if signed { 1int } else { 0int };
        assert(text@.subrange(start, text@.len() as int) =~= unsigned_part(text@));
    }
    if !any {
        if signed {
            Err(TimeoutFault::InvalidDigit)
        } else {
            Err(TimeoutFault::Empty)
        }
    } else if negative {
        Ok((-magnitude) as i32)
    } else {
        Ok(magnitude as i32)
    }
}

/// Read the timeout of a `stop` from its argument, if it has one.
///
/// No argument means [`WAIT_FOREVER`]. An argument has to write an `i32` in
/// decimal; one that does not is refused, with what is wrong with it.
pub fn parse_timeout(arg: Option<&str>) -> (r: Result<i32, Error>)
    ensures
        r == match timeout_of(
            match arg {
                Some(text) => Some(text@),
                None => None,
            },
        ) {
            Ok(seconds) => Ok::<i32, Error>(seconds),
            Err(fault) => Err::<i32, Error>(Error::InvalidTimeout(fault)),
        },
{
    match arg {
        None => Ok(WAIT_FOREVER),
        Some(text) => match parse_decimal(text) {
            Ok(seconds) => Ok(seconds),
            Err(fault) => Err(Error::InvalidTimeout(fault)),
        },
    }
}

} // verus!
