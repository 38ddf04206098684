//! Decimal numerals: parsing candidate fields and printing bounds.
//!
//! The age and workload fields arrive as text and must parse as unsigned
//! integers; the rejection messages print the configured bounds back in
//! decimal. Both directions are verified against the spec-level decimal
//! value [`str_val`] and decimal digit string [`dec_digits`].

use vstd::prelude::*;

verus! {

/// The ten decimal digit characters.
pub open spec fn is_digit(c: char) -> bool {
    '0' as u32 <= c as u32 && c as u32 <= '9' as u32
}

/// The value of one decimal digit character.
pub open spec fn digit_val(c: char) -> nat
    recommends
        is_digit(c),
{
    (c as u32 - '0' as u32) as nat
}

/// Digit characters sit between `'0'` and `'9'` in the character order.
pub proof fn lemma_digit_char_bounds(c: char)
    requires
        is_digit(c),
    ensures
        '0' <= c <= '9',
{
}

/// Distinct digit characters have distinct values.
pub proof fn lemma_digit_val_injective(c: char, d: char)
    requires
        is_digit(c),
        is_digit(d),
        c != d,
    ensures
        digit_val(c) != digit_val(d),
{
}

pub open spec fn all_digits(s: Seq<char>) -> bool {
    forall|i: int| 0 <= i < s.len() ==> is_digit(#[trigger] s[i])
}

/// The value of a digit string read in base ten.
pub open spec fn str_val(s: Seq<char>) -> nat
    decreases s.len(),
{
    if s.len() == 0 {
        0
    } else {
        str_val(s.drop_last()) * 10 + digit_val(s.last())
    }
}

/// The digits of a numeral: a single leading `+` sign is not part of them.
pub open spec fn digits_part(s: Seq<char>) -> Seq<char> {
    if s.len() > 0 && s[0] == '+' {
        s.drop_first()
    } else {
        s
    }
}

/// The strings that parse as a `u32`: at least one digit after the
/// optional sign, nothing but digits there, and a value that fits.
pub open spec fn is_u32_numeral(s: Seq<char>) -> bool {
    &&& digits_part(s).len() > 0
    &&& all_digits(digits_part(s))
    &&& str_val(digits_part(s)) <= u32::MAX
}

/// A digit string is worth at least as much as any of its prefixes.
pub proof fn lemma_str_val_prefix(s: Seq<char>, k: int)
    requires
        0 <= k <= s.len(),
    ensures
        str_val(s.take(k)) <= str_val(s),
    decreases s.len(),
{
    if k == s.len() {
        assert(s.take(k) =~= s);
    } else {
        assert(s.take(k) =~= s.drop_last().take(k));
        lemma_str_val_prefix(s.drop_last(), k);
    }
}

/// Reading one more digit multiplies the prefix value by ten and adds it.
pub proof fn lemma_str_val_step(s: Seq<char>, k: int)
    requires
        0 <= k < s.len(),
    ensures
        str_val(s.take(k + 1)) == str_val(s.take(k)) * 10 + digit_val(s[k]),
{
    assert(s.take(k + 1).drop_last() =~= s.take(k));
    assert(s.take(k + 1).last() == s[k]);
}

/// Parses a `u32` from decimal text, accepting exactly the strings of
/// [`is_u32_numeral`]: an optional leading `+`, then one or more decimal
/// digits whose value fits in a `u32`.
pub fn parse_u32(s: &str) -> (r: Option<u32>)
    ensures
        r is Some <==> is_u32_numeral(s@),
        r matches Some(v) ==> v as nat == str_val(digits_part(s@)),
{
    let n = s.unicode_len();
    let offset: usize = if n > 0 && s.get_char(0) == '+' {
        1
    } else {
        0
    };
    let ghost dp = s@.subrange(offset as int, s@.len() as int);
    proof {
        assert(dp =~= digits_part(s@));
    }
    if n == offset {
        return None;
    }
    let mut acc: u32 = 0;
    let mut i: usize = offset;
    while i < n
        invariant
            offset <= i <= n,
            n == s@.len(),
            n > offset,
            dp == digits_part(s@),
            dp =~= s@.subrange(offset as int, s@.len() as int),
            all_digits(dp.take(i - offset)),
            acc as nat == str_val(dp.take(i - offset)),
        decreases n - i,
    {
        let c = s.get_char(i);
        let v = c as u32;
        proof {
            assert(dp[i - offset] == s@[i as int]);
        }
        if v < 48 || v > 57 {
            proof {
                assert(!is_digit(dp[i - offset]));
            }
            return None;
        }
        let d = v - 48;
        proof {
            assert(is_digit(dp[i - offset]));
            assert(digit_val(dp[i - offset]) == d);
            lemma_str_val_step(dp, i - offset);
        }
        if acc > (u32::MAX - d) / 10 {
            proof {
                assert(acc * 10 + d > u32::MAX) by {
                    assert(acc >= (u32::MAX - d) / 10 + 1);
                    assert(((u32::MAX - d) / 10 + 1) * 10 == ((u32::MAX - d) / 10) * 10 + 10);
                    assert(((u32::MAX - d) / 10) * 10 + 10 > u32::MAX - d);
                };
                assert(str_val(dp.take(i - offset + 1)) > u32::MAX);
                lemma_str_val_prefix(dp, i - offset + 1);
                assert(dp.take(dp.len() as int) =~= dp);
                assert(!is_u32_numeral(s@));
            }
            return None;
        }
        proof {
            assert(acc * 10 + d <= u32::MAX) by {
                assert(acc <= (u32::MAX - d) / 10);
                assert(acc * 10 <= ((u32::MAX - d) / 10) * 10);
                assert(((u32::MAX - d) / 10) * 10 <= u32::MAX - d);
            };
        }
        acc = acc * 10 + d;
        i = i + 1;
    }
    proof {
        assert(dp.take(i - offset) =~= dp);
    }
    Some(acc)
}

/// The character of one decimal digit value.
pub open spec fn digit_char(d: nat) -> char
    recommends
        d < 10,
{
    if d == 0 {
        '0'
    } else if d == 1 {
        '1'
    } else if d == 2 {
        '2'
    } else if d == 3 {
        '3'
    } else if d == 4 {
        '4'
    } else if d == 5 {
        '5'
    } else if d == 6 {
        '6'
    } else if d == 7 {
        '7'
    } else if d == 8 {
        '8'
    } else {
        '9'
    }
}

/// The decimal digit string of a number, without sign or padding.
pub open spec fn dec_digits(n: nat) -> Seq<char>
    decreases n,
{
    if n < 10 {
        seq![digit_char(n)]
    } else {
        dec_digits(n / 10).push(digit_char(n % 10))
    }
}

/// The one-character string of one decimal digit value.
fn digit_str(d: u32) -> (r: &'static str)
    requires
        d < 10,
    ensures
        r@ == seq![digit_char(d as nat)],
{
    if d == 0 {
        proof {
            reveal_strlit("0");
            assert("0"@ =~= seq![digit_char(0)]);
        }
        "0"
    } else if d == 1 {
        proof {
            reveal_strlit("1");
            assert("1"@ =~= seq![digit_char(1)]);
        }
        "1"
    } else if d == 2 {
        proof {
            reveal_strlit("2");
            assert("2"@ =~= seq![digit_char(2)]);
        }
        "2"
    } else if d == 3 {
        proof {
            reveal_strlit("3");
            assert("3"@ =~= seq![digit_char(3)]);
        }
        "3"
    } else if d == 4 {
        proof {
            reveal_strlit("4");
            assert("4"@ =~= seq![digit_char(4)]);
        }
        "4"
    } else if d == 5 {
        proof {
            reveal_strlit("5");
            assert("5"@ =~= seq![digit_char(5)]);
        }
        "5"
    } else if d == 6 {
        proof {
            reveal_strlit("6");
            assert("6"@ =~= seq![digit_char(6)]);
        }
        "6"
    } else if d == 7 {
        proof {
            reveal_strlit("7");
            assert("7"@ =~= seq![digit_char(7)]);
        }
        "7"
    } else if d == 8 {
        proof {
            reveal_strlit("8");
            assert("8"@ =~= seq![digit_char(8)]);
        }
        "8"
    } else {
        proof {
            reveal_strlit("9");
            assert("9"@ =~= seq![digit_char(9)]);
        }
        "9"
    }
}

/// Prints a number in decimal, the exact digit string of [`dec_digits`].
pub fn u32_to_string(n: u32) -> (r: String)
    ensures
        r@ == dec_digits(n as nat),
    decreases n,
{
    if n < 10 {
        String::from_str(digit_str(n))
    } else {
        let prefix = u32_to_string(n / 10);
        let r = prefix.concat(digit_str(n % 10));
        proof {
            assert(r@ =~= dec_digits((n / 10) as nat).push(digit_char((n % 10) as nat)));
            assert((n / 10) as nat == (n as nat) / 10);
            assert((n % 10) as nat == (n as nat) % 10);
        }
        r
    }
}

} // verus!
