//! The check-digit algorithm for the structured AHV identifier.
//!
//! A valid identifier has the fixed shape `756.dddd.dddd.dd`: the constant
//! prefix `756`, then dot-separated digit groups, thirteen digits in all.
//! The last digit is a check digit: walking the twelve preceding digits
//! from the end, every digit at an even position (counting from zero)
//! weighs three times, the others once; the weighted sum, rounded up to
//! the next multiple of ten, minus the sum, must equal the check digit.

use crate::numerals::{digit_val, is_digit, lemma_digit_char_bounds, lemma_digit_val_injective};
use vstd::prelude::*;

verus! {

/// The fixed shape `756.dddd.dddd.dd`: sixteen characters, the prefix
/// `756`, dots at positions 3, 8 and 13, decimal digits everywhere else.
pub open spec fn ahv_shape(s: Seq<char>) -> bool {
    &&& s.len() == 16
    &&& s[0] == '7'
    &&& s[1] == '5'
    &&& s[2] == '6'
    &&& s[3] == '.'
    &&& s[8] == '.'
    &&& s[13] == '.'
    &&& forall|i: int|
        0 <= i < 16 && i != 3 && i != 8 && i != 13 ==> is_digit(#[trigger] s[i])
}

/// The weighted sum over the twelve digits before the check digit: read
/// from the end, digits at even positions weigh three, the others one.
/// The digit positions of the shape are 0, 1, 2, 4..=7, 9..=12 and 14;
/// of these, those at odd rank from the front are the even ones from the
/// end, hence the weights below.
pub open spec fn ahv_sum(s: Seq<char>) -> nat
    recommends
        ahv_shape(s),
{
    digit_val(s[0]) + 3 * digit_val(s[1]) + digit_val(s[2]) + 3 * digit_val(s[4]) + digit_val(
        s[5],
    ) + 3 * digit_val(s[6]) + digit_val(s[7]) + 3 * digit_val(s[9]) + digit_val(s[10]) + 3
        * digit_val(s[11]) + digit_val(s[12]) + 3 * digit_val(s[14])
}

/// The smallest multiple of ten that is at least `n`.
pub open spec fn next_ten(n: nat) -> nat {
    ((n + 9) / 10) * 10
}

/// The check digit owed to an identifier body: the distance from the
/// weighted sum up to the next multiple of ten.
pub open spec fn ahv_check_digit(s: Seq<char>) -> nat
    recommends
        ahv_shape(s),
{
    (next_ten(ahv_sum(s)) - ahv_sum(s)) as nat
}

/// The identifiers that the validator accepts: well-shaped, with the last
/// digit equal to the check digit owed to the rest.
pub open spec fn ahv_valid(s: Seq<char>) -> bool {
    ahv_shape(s) && digit_val(s[15]) == ahv_check_digit(s)
}

/// The rejection message for a bad identifier; the validator never says
/// which step failed.
pub open spec fn ahv_message() -> Seq<char> {
    "Ungültige AHV Nummer."@
}

/// Rounding up to the next ten never moves past the next ten.
pub proof fn lemma_next_ten_bounds(n: nat)
    ensures
        n <= next_ten(n) < n + 10,
        next_ten(n) % 10 == 0,
{
    assert(((n + 9) / 10) * 10 == (n + 9) - (n + 9) % 10);
}

/// For every well-shaped identifier the owed check digit is itself a
/// single digit, so every twelve-digit body extends to exactly one valid
/// identifier: appending the owed digit makes the validator accept, and
/// any other final digit makes it reject.
pub proof fn lemma_check_digit_round_trip(s: Seq<char>)
    requires
        ahv_shape(s),
    ensures
        ahv_check_digit(s) < 10,
        ahv_valid(s) <==> digit_val(s[15]) == ahv_check_digit(s),
{
    lemma_next_ten_bounds(ahv_sum(s));
}

/// Two well-shaped identifiers with the same first fifteen characters and
/// different check digits cannot both be valid: flipping the check digit
/// of a valid identifier always makes the validator reject.
pub proof fn lemma_check_digit_flip(s: Seq<char>, t: Seq<char>)
    requires
        ahv_shape(s),
        ahv_shape(t),
        s.take(15) == t.take(15),
        ahv_valid(s),
        t[15] != s[15],
    ensures
        !ahv_valid(t),
{
    assert forall|i: int| 0 <= i < 15 implies #[trigger] t[i] == s[i] by {
        assert(s.take(15)[i] == s[i]);
        assert(t.take(15)[i] == t[i]);
    }
    assert(ahv_sum(t) == ahv_sum(s));
    assert(is_digit(s[15]));
    assert(is_digit(t[15]));
    lemma_digit_val_injective(s[15], t[15]);
}

/// Relies on `regex::Regex::is_match` with the anchored pattern
/// `^[7][5][6][.][\d]{4}[.][\d]{4}[.][\d]{2}$`: on ASCII text, where the
/// digit class means exactly `0` to `9`, it decides the fixed identifier
/// shape. The pattern is a valid expression, so compilation cannot fail.
#[verifier::external_body]
fn ahv_pattern_match(s: &str) -> (r: bool)
    requires
        vstd::string::is_ascii(s),
    ensures
        r == ahv_shape(s@),
{
    match regex::Regex::new(r"^[7][5][6][.][\d]{4}[.][\d]{4}[.][\d]{2}$") {
        Ok(re) => re.is_match(s),
        Err(_) => false,
    }
}

/// Reads the decimal digit at one position of an ASCII digit character.
fn char_digit(s: &str, i: usize) -> (d: u32)
    requires
        i < s@.len(),
        is_digit(s@[i as int]),
    ensures
        d == digit_val(s@[i as int]),
        d < 10,
{
    s.get_char(i) as u32 - 48
}

/// Validates a bare identifier string: accepts exactly the identifiers of
/// [`ahv_valid`], rejecting everything else with the one generic message.
pub fn validate_ahv(ahv_nr: &str) -> (r: Result<(), String>)
    ensures
        r is Ok <==> ahv_valid(ahv_nr@),
        r is Err ==> r->Err_0@ == ahv_message(),
{
    if !ahv_nr.is_ascii() {
        proof {
            if ahv_shape(ahv_nr@) {
                assert forall|i: int| 0 <= i < ahv_nr@.len() implies '\0'
                    <= #[trigger] ahv_nr@[i] <= '\u{7f}' by {
                    if i == 3 || i == 8 || i == 13 {
                        assert(ahv_nr@[i] == '.');
                    } else {
                        assert(is_digit(ahv_nr@[i]));
                        lemma_digit_char_bounds(ahv_nr@[i]);
                    }
                }
                assert(vstd::string::is_ascii(ahv_nr));
            }
        }
        return Err("Ungültige AHV Nummer.".to_owned());
    }
    if !ahv_pattern_match(ahv_nr) {
        return Err("Ungültige AHV Nummer.".to_owned());
    }
    let sum: u32 = char_digit(ahv_nr, 0) + 3 * char_digit(ahv_nr, 1) + char_digit(ahv_nr, 2) + 3
        * char_digit(ahv_nr, 4) + char_digit(ahv_nr, 5) + 3 * char_digit(ahv_nr, 6) + char_digit(
        ahv_nr,
        7,
    ) + 3 * char_digit(ahv_nr, 9) + char_digit(ahv_nr, 10) + 3 * char_digit(ahv_nr, 11)
        + char_digit(ahv_nr, 12) + 3 * char_digit(ahv_nr, 14);
    let next: u32 = ((sum + 9) / 10) * 10;
    proof {
        lemma_next_ten_bounds(sum as nat);
    }
    let check: u32 = next - sum;
    let expected: u32 = char_digit(ahv_nr, 15);
    if check == expected {
        Ok(())
    } else {
        Err("Ungültige AHV Nummer.".to_owned())
    }
}

} // verus!
