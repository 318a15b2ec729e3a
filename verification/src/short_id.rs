//! Short identifiers: numbers drawn at random and written in base 62.

use crate::setting::{SHORT_ID_MAX, SHORT_ID_MIN};
use crate::trusted::{base62, base62_digit, base62_encode, random_in_range};
use vstd::prelude::*;

verus! {

/// The characters a short identifier is made of.
pub open spec fn is_base62_char(c: char) -> bool {
    ('0' <= c && c <= '9') || ('A' <= c && c <= 'Z') || ('a' <= c && c <= 'z')
}

/// `text` is what some number of the sampling interval looks like in base 62.
pub open spec fn is_short_id(text: Seq<char>) -> bool {
    exists|number: nat| SHORT_ID_MIN <= number < SHORT_ID_MAX && text == #[trigger] base62(number)
}

/// 62 to the power of `exponent`.
pub open spec fn pow62(exponent: nat) -> nat
    decreases exponent,
{
    if exponent == 0 {
        1
    } else {
        62 * pow62((exponent - 1) as nat)
    }
}

/// Every digit of base 62 is a digit or a letter of ASCII.
pub proof fn lemma_base62_digit_is_alphanumeric(value: int)
    requires
        0 <= value < 62,
    ensures
        is_base62_char(base62_digit(value)),
{
    reveal_strlit("0123456789ABCDEFGHIJKLMNOPQRSTUVWXYZabcdefghijklmnopqrstuvwxyz");
}

/// A number written in base 62 has at least one character, and only digits
/// and letters.
pub proof fn lemma_base62_is_alphanumeric(number: nat)
    ensures
        base62(number).len() >= 1,
        forall|i: int| 0 <= i < base62(number).len() ==> is_base62_char(#[trigger] base62(number)[i]),
    decreases number,
{
    if number < 62 {
        lemma_base62_digit_is_alphanumeric(number as int);
    } else {
        lemma_base62_is_alphanumeric(number / 62);
        lemma_base62_digit_is_alphanumeric((number % 62) as int);
    }
}

/// A number below 62 to the `digits` takes at most `digits` characters.
pub proof fn lemma_base62_len_at_most(number: nat, digits: nat)
    requires
        digits >= 1,
        number < pow62(digits),
    ensures
        base62(number).len() <= digits,
    decreases number,
{
    if number >= 62 {
        reveal_with_fuel(pow62, 2);
        assert(digits >= 2);
        lemma_base62_len_at_most(number / 62, (digits - 1) as nat);
    }
}

/// A number of at least 62 to the `digits` takes more than `digits`
/// characters.
pub proof fn lemma_base62_len_above(number: nat, digits: nat)
    requires
        number >= pow62(digits),
    ensures
        base62(number).len() > digits,
    decreases number,
{
    if digits > 0 {
        assert(pow62((digits - 1) as nat) >= 1) by {
            lemma_pow62_positive((digits - 1) as nat);
        }
        lemma_base62_len_above(number / 62, (digits - 1) as nat);
    }
}

/// Powers of 62 are positive.
pub proof fn lemma_pow62_positive(exponent: nat)
    ensures
        pow62(exponent) >= 1,
    decreases exponent,
{
    if exponent > 0 {
        lemma_pow62_positive((exponent - 1) as nat);
    }
}

/// A 64-bit number takes between one and eleven characters in base 62.
pub proof fn lemma_base62_len_of_u64(number: u64)
    ensures
        1 <= base62(number as nat).len() <= 11,
{
    reveal_with_fuel(pow62, 12);
    assert(pow62(11) == 52036560683837093888);
    lemma_base62_len_at_most(number as nat, 11);
    lemma_base62_is_alphanumeric(number as nat);
}

/// A short identifier has five to seven characters, all of them digits or
/// letters.
pub proof fn lemma_short_id_shape(text: Seq<char>)
    requires
        is_short_id(text),
    ensures
        5 <= text.len() <= 7,
        forall|i: int| 0 <= i < text.len() ==> is_base62_char(#[trigger] text[i]),
{
    let number = choose|number: nat|
        SHORT_ID_MIN <= number < SHORT_ID_MAX && text == #[trigger] base62(number);
    reveal_with_fuel(pow62, 8);
    assert(pow62(4) == 14776336);
    assert(pow62(7) == 3521614606208);
    lemma_base62_len_above(number, 4);
    lemma_base62_len_at_most(number, 7);
    lemma_base62_is_alphanumeric(number);
}

/// The short identifier that stands for `sample`.
pub fn short_url_id_of(sample: u64) -> (id: String)
    ensures
        id@ == base62(sample as nat),
        SHORT_ID_MIN <= sample < SHORT_ID_MAX ==> is_short_id(id@),
{
    base62_encode(sample)
}

/// Draws a fresh short identifier. Whether it is free is not known here: that
/// takes a look into the record store.
pub fn gen_short_url_id() -> (id: String)
    ensures
        is_short_id(id@),
{
    let random_number: u64 = random_in_range(SHORT_ID_MIN, SHORT_ID_MAX);
    short_url_id_of(random_number)
}

} // verus!
