//! The pause between two update cycles, read from its decimal text.

use vstd::prelude::*;
use vstd::slice::*;
use vstd::string::*;
use crate::address::is_digit;

verus! {

/// The pause, in seconds, that is used where none is given or the given one
/// cannot be read.
pub const DEFAULT_INTERVAL: u64 = 1800;

/// The byte of the plus sign that may lead a number.
pub const PLUS: u8 = 43;

/// What a digit byte counts for.
pub open spec fn digit_value(b: u8) -> nat {
    if b >= 48 {
        (b - 48) as nat
    } else {
        0
    }
}

/// The number that a sequence of digits spells in base ten; the empty
/// sequence spells zero.
pub open spec fn decimal_value(digits: Seq<u8>) -> nat
    decreases digits.len(),
{
    if digits.len() == 0 {
        0
    } else {
        decimal_value(digits.drop_last()) * 10 + digit_value(digits.last())
    }
}

/// Whether every byte of `bytes` is a decimal digit.
pub open spec fn all_digits(bytes: Seq<u8>) -> bool {
    forall|i: int| 0 <= i < bytes.len() ==> is_digit(#[trigger] bytes[i])
}

/// The text without the plus sign that may lead it.
pub open spec fn unsigned_part(bytes: Seq<u8>) -> Seq<u8> {
    if bytes.len() > 0 && bytes[0] == 43 {
        bytes.skip(1)
    } else {
        bytes
    }
}

/// The number of seconds that `bytes` spells: an optional plus sign, then one
/// or more decimal digits whose value fits in 64 bits. Leading zeros count
/// for nothing; any other text spells no number.
pub open spec fn decimal_seconds(bytes: Seq<u8>) -> Option<u64> {
    let digits = unsigned_part(bytes);
    if digits.len() > 0 && all_digits(digits) && decimal_value(digits) <= u64::MAX {
        Some(decimal_value(digits) as u64)
    } else {
        None
    }
}

/// The pause that an optional text asks for: its number where it spells one,
/// the default otherwise.
pub open spec fn interval_of(input: Option<Seq<u8>>) -> u64 {
    match input {
        Some(bytes) => match decimal_seconds(bytes) {
            Some(seconds) => seconds,
            None => 1800,
        },
        None => 1800,
    }
}

/// A prefix of a digit sequence spells no more than the whole.
pub proof fn lemma_prefix_value(digits: Seq<u8>, k: int)
    requires
        0 <= k <= digits.len(),
    ensures
        decimal_value(digits.take(k)) <= decimal_value(digits),
    decreases digits.len(),
{
    if k < digits.len() {
        lemma_prefix_value(digits.drop_last(), k);
        assert(digits.drop_last().take(k) =~= digits.take(k));
    } else {
        assert(digits.take(k) =~= digits);
    }
}

/// One more digit behind a prefix: ten times the prefix plus the digit.
pub proof fn lemma_value_step(digits: Seq<u8>, k: int)
    requires
        0 <= k < digits.len(),
    ensures
        decimal_value(digits.take(k + 1)) == decimal_value(digits.take(k)) * 10 + digit_value(
            digits[k],
        ),
{
    assert(digits.take(k + 1).drop_last() =~= digits.take(k));
}

/// Reads a number of seconds from its decimal text.
pub fn parse_seconds(bytes: &[u8]) -> (r: Option<u64>)
    ensures
        r == decimal_seconds(bytes@),
{
    let len = bytes.len();
    let start: usize = if len > 0 && bytes[0] == PLUS {
        1
    } else {
        0
    };
    if start == len {
        return None;
    }
    let ghost digits = unsigned_part(bytes@);
    let mut acc: u64 = 0;
    let mut i: usize = start;
    while i < len
        invariant
            start <= i <= len,
            len == bytes@.len(),
            digits == unsigned_part(bytes@),
            digits.len() == len - start,
            forall|j: int| 0 <= j < digits.len() ==> digits[j] == bytes@[j + start],
            all_digits(digits.take(i - start)),
            acc == decimal_value(digits.take(i - start)),
        decreases len - i,
    {
        let b = bytes[i];
        if b < 48 || b > 57 {
            assert(!is_digit(digits[i - start]));
            return None;
        }
        let d: u64 = (b - 48) as u64;
        proof {
            lemma_value_step(digits, i - start);
        }
        if acc > (u64::MAX - d) / 10 {
            proof {
                lemma_prefix_value(digits, i - start + 1);
            }
            return None;
        }
        acc = acc * 10 + d;
        i += 1;
    }
    proof {
        assert(digits.take(len - start) =~= digits);
    }
    Some(acc)
}

/// The pause to use for an optional interval text: the number of seconds it
/// spells, or the default where the text is absent or spells none.
pub fn effective_interval(input: Option<&str>) -> (r: u64)
    ensures
        r == interval_of(
            match input {
                Some(text) => Some(text.spec_bytes()),
                None => None,
            },
        ),
        input is None ==> r == DEFAULT_INTERVAL,
        input is Some && decimal_seconds(input->0.spec_bytes()) is None ==> r == DEFAULT_INTERVAL,
{
    match input {
        Some(text) => match parse_seconds(text.as_bytes()) {
            Some(seconds) => seconds,
            None => DEFAULT_INTERVAL,
        },
        None => DEFAULT_INTERVAL,
    }
}

/// A text that is not numeric asks for the default pause: one with no digit
/// behind its optional plus sign, or with a byte there that is no digit.
pub proof fn lemma_non_numeric_interval(bytes: Seq<u8>)
    requires
        unsigned_part(bytes).len() == 0 || !all_digits(unsigned_part(bytes)),
    ensures
        decimal_seconds(bytes) is None,
        interval_of(Some(bytes)) == DEFAULT_INTERVAL,
{
}

/// A numeric text whose value fits in 64 bits asks for exactly that value,
/// zero included.
pub proof fn lemma_numeric_interval(bytes: Seq<u8>)
    requires
        unsigned_part(bytes).len() > 0,
        all_digits(unsigned_part(bytes)),
        decimal_value(unsigned_part(bytes)) <= u64::MAX,
    ensures
        interval_of(Some(bytes)) == decimal_value(unsigned_part(bytes)),
{
}

} // verus!
