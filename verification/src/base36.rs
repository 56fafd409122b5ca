//! The lowercase base-36 alphabet (digits `0`-`9`, letters `a`-`z`) and
//! fixed-width base-36 rendering of machine integers.

use vstd::prelude::*;

verus! {

/// A byte is a character of the base-36 alphabet: `'0'`..=`'9'` or `'a'`..=`'z'`.
pub open spec fn is_digit_byte(b: u8) -> bool {
    (48 <= b <= 57) || (97 <= b <= 122)
}

/// A byte is a lowercase ASCII letter `'a'`..=`'z'`.
pub open spec fn is_letter_byte(b: u8) -> bool {
    97 <= b <= 122
}

/// The identifier shape: non-empty, a lowercase letter first, and lowercase
/// letters or digits everywhere after it.
pub open spec fn is_identifier(s: Seq<u8>) -> bool {
    &&& s.len() >= 1
    &&& is_letter_byte(s[0])
    &&& forall|i: int| 1 <= i < s.len() ==> is_digit_byte(#[trigger] s[i])
}

/// The character that renders a single base-36 digit value: `'0'` + d for
/// d below ten, `'a'` + (d - 10) otherwise.
pub open spec fn digit_char(d: int) -> u8
    recommends
        0 <= d < 36,
{
    if d < 10 {
        (48 + d) as u8
    } else {
        (87 + d) as u8
    }
}

pub proof fn lemma_digit_char_valid(d: int)
    requires
        0 <= d < 36,
    ensures
        is_digit_byte(digit_char(d)),
{
}

/// Big-endian base-36 rendering of `n` in exactly `width` characters: the
/// digit of weight 36^(width-1) comes first, and values too large for the
/// width lose their high digits.
pub open spec fn spec_base36(n: int, width: nat) -> Seq<u8>
    recommends
        n >= 0,
    decreases width,
{
    if width == 0 {
        Seq::empty()
    } else {
        spec_base36(n / 36, (width - 1) as nat).push(digit_char(n % 36))
    }
}

pub proof fn lemma_base36_len(n: int, width: nat)
    ensures
        spec_base36(n, width).len() == width,
    decreases width,
{
    if width > 0 {
        lemma_base36_len(n / 36, (width - 1) as nat);
    }
}

pub proof fn lemma_base36_digits(n: int, width: nat)
    requires
        n >= 0,
    ensures
        forall|i: int|
            0 <= i < spec_base36(n, width).len() ==> is_digit_byte(
                #[trigger] spec_base36(n, width)[i],
            ),
    decreases width,
{
    if width > 0 {
        lemma_base36_digits(n / 36, (width - 1) as nat);
        lemma_base36_len(n / 36, (width - 1) as nat);
        lemma_digit_char_valid(n % 36);
    }
}

/// The character for a base-36 digit value below 36.
pub fn digit_char_of(d: u8) -> (r: u8)
    requires
        d < 36,
    ensures
        r == digit_char(d as int),
{
    if d < 10 {
        48 + d
    } else {
        87 + d
    }
}

/// Renders `n` in base 36, padded with leading zero characters (or truncated)
/// to exactly `width` characters.
pub fn base36_fixed(n: u64, width: usize) -> (r: Vec<u8>)
    ensures
        r@ == spec_base36(n as int, width as nat),
        r@.len() == width,
    decreases width,
{
    proof {
        lemma_base36_len(n as int, width as nat);
    }
    if width == 0 {
        Vec::new()
    } else {
        let mut r = base36_fixed(n / 36, width - 1);
        let d: u8 = (n % 36) as u8;
        r.push(digit_char_of(d));
        r
    }
}

} // verus!
