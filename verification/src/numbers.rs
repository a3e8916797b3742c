//! Decimal numerals.
//!
//! The gallery embeds integers in two places: the counter value appended
//! to every placeholder image URL, and the image id carried at the tail of
//! an image reference. This module renders integers as decimal strings
//! and parses the id back, with the exact grammar of a signed decimal
//! numeral: an optional `+` or `-` sign followed by one or more digits,
//! rejected when the magnitude does not fit the id type.

use vstd::prelude::*;

verus! {

/// An ASCII decimal digit.
pub open spec fn is_digit(c: char) -> bool {
    '0' <= c && c <= '9'
}

/// The numeric value of one digit character.
pub open spec fn digit_val(c: char) -> int {
    c as int - '0' as int
}

/// The digit character for a value below ten.
pub open spec fn digit_char(d: nat) -> char {
    if d == 0 {
        '0'
    } else if d == 1 {
        '1'
    } else if d == 2 {
        '2'
    } else if d == 3 {
        '3'
    } else if d == 4 {
        '4'
    } else if d == 5 {
        '5'
    } else if d == 6 {
        '6'
    } else if d == 7 {
        '7'
    } else if d == 8 {
        '8'
    } else {
        '9'
    }
}

/// The decimal numeral of a natural number, most significant digit first.
pub open spec fn dec_str(n: nat) -> Seq<char>
    decreases n,
{
    if n < 10 {
        seq![digit_char(n)]
    } else {
        dec_str(n / 10).push(digit_char(n % 10))
    }
}

/// The decimal numeral of an integer: a leading minus sign for negatives.
pub open spec fn int_dec_str(n: int) -> Seq<char> {
    if n < 0 {
        "-"@ + dec_str((-n) as nat)
    } else {
        dec_str(n as nat)
    }
}

/// Every character of the sequence is a digit.
pub open spec fn all_digits(s: Seq<char>) -> bool {
    forall|i: int| 0 <= i < s.len() ==> is_digit(#[trigger] s[i])
}

/// The value of a digit sequence read as a decimal numeral.
pub open spec fn digits_val(s: Seq<char>) -> int
    decreases s.len(),
{
    if s.len() == 0 {
        0
    } else {
        digits_val(s.drop_last()) * 10 + digit_val(s.last())
    }
}

/// How many leading characters a sign occupies in a numeral.
pub open spec fn sign_skip(s: Seq<char>) -> int {
    if s.len() > 0 && (s[0] == '-' || s[0] == '+') {
        1
    } else {
        0
    }
}

/// The digits of a numeral, the sign stripped.
pub open spec fn numeral_body(s: Seq<char>) -> Seq<char> {
    s.skip(sign_skip(s))
}

/// Whether a string is a valid decimal numeral for a 32-bit signed id.
pub open spec fn valid_i32_str(s: Seq<char>) -> bool {
    &&& numeral_body(s).len() > 0
    &&& all_digits(numeral_body(s))
    &&& if s.len() > 0 && s[0] == '-' {
        digits_val(numeral_body(s)) <= 0x8000_0000
    } else {
        digits_val(numeral_body(s)) <= 0x7fff_ffff
    }
}

/// The value of a valid numeral.
pub open spec fn i32_val(s: Seq<char>) -> int {
    if s.len() > 0 && s[0] == '-' {
        -digits_val(numeral_body(s))
    } else {
        digits_val(numeral_body(s))
    }
}

/// A sequence of digits never has a negative value.
pub proof fn lemma_digits_val_nonneg(s: Seq<char>)
    requires
        all_digits(s),
    ensures
        digits_val(s) >= 0,
    decreases s.len(),
{
    if s.len() > 0 {
        assert forall|i: int| 0 <= i < s.drop_last().len() implies is_digit(
            #[trigger] s.drop_last()[i],
        ) by {
            assert(s.drop_last()[i] == s[i]);
        }
        lemma_digits_val_nonneg(s.drop_last());
        assert(is_digit(s.last()));
    }
}

/// Extending a digit sequence on the right never decreases its value.
pub proof fn lemma_digits_val_take_le(s: Seq<char>, n: int)
    requires
        all_digits(s),
        0 <= n <= s.len(),
    ensures
        digits_val(s.take(n)) <= digits_val(s),
    decreases s.len(),
{
    if n == s.len() {
        assert(s.take(n) =~= s);
    } else {
        let d = s.drop_last();
        assert(d.take(n) =~= s.take(n));
        assert forall|i: int| 0 <= i < d.len() implies is_digit(#[trigger] d[i]) by {
            assert(d[i] == s[i]);
        }
        lemma_digits_val_take_le(d, n);
        lemma_digits_val_nonneg(d);
        assert(is_digit(s.last()));
        assert(digits_val(s) == digits_val(d) * 10 + digit_val(s.last()));
        assert(digits_val(d) * 10 + digit_val(s.last()) >= digits_val(d));
    }
}

/// The numeral of a natural number is all digits, and reads back to the
/// same number.
pub proof fn lemma_dec_str_val(n: nat)
    ensures
        all_digits(dec_str(n)),
        digits_val(dec_str(n)) == n,
        dec_str(n).len() >= 1,
    decreases n,
{
    if n < 10 {
        let s = seq![digit_char(n)];
        assert(s.len() == 1);
        assert(s.last() == digit_char(n));
        assert(s.drop_last() =~= Seq::<char>::empty());
        assert(digits_val(Seq::<char>::empty()) == 0);
        assert(digits_val(s) == digit_val(digit_char(n)));
        assert(digit_val(digit_char(n)) == n);
        assert(is_digit(digit_char(n)));
    } else {
        lemma_dec_str_val(n / 10);
        let x = dec_str(n / 10);
        let c = digit_char(n % 10);
        assert(x.push(c).drop_last() =~= x);
        assert(x.push(c).last() == c);
        assert(digit_val(c) == n % 10);
        assert(is_digit(c));
        assert forall|i: int| 0 <= i < x.push(c).len() implies is_digit(
            #[trigger] x.push(c)[i],
        ) by {
            if i < x.len() {
                assert(x.push(c)[i] == x[i]);
            } else {
                assert(x.push(c)[i] == c);
            }
        }
        assert(digits_val(x.push(c)) == digits_val(x) * 10 + digit_val(c));
    }
}

/// Distinct natural numbers have distinct numerals.
pub proof fn lemma_dec_str_injective(a: nat, b: nat)
    ensures
        a != b ==> dec_str(a) != dec_str(b),
{
    lemma_dec_str_val(a);
    lemma_dec_str_val(b);
}

/// The digit character for a value below ten, as a string slice.
fn digit_str(d: u64) -> (r: &'static str)
    requires
        d < 10,
    ensures
        r@ == seq![digit_char(d as nat)],
{
    if d == 0 {
        proof {
            reveal_strlit("0");
            assert("0"@ =~= seq![digit_char(0)]);
        }
        "0"
    } else if d == 1 {
        proof {
            reveal_strlit("1");
            assert("1"@ =~= seq![digit_char(1)]);
        }
        "1"
    } else if d == 2 {
        proof {
            reveal_strlit("2");
            assert("2"@ =~= seq![digit_char(2)]);
        }
        "2"
    } else if d == 3 {
        proof {
            reveal_strlit("3");
            assert("3"@ =~= seq![digit_char(3)]);
        }
        "3"
    } else if d == 4 {
        proof {
            reveal_strlit("4");
            assert("4"@ =~= seq![digit_char(4)]);
        }
        "4"
    } else if d == 5 {
        proof {
            reveal_strlit("5");
            assert("5"@ =~= seq![digit_char(5)]);
        }
        "5"
    } else if d == 6 {
        proof {
            reveal_strlit("6");
            assert("6"@ =~= seq![digit_char(6)]);
        }
        "6"
    } else if d == 7 {
        proof {
            reveal_strlit("7");
            assert("7"@ =~= seq![digit_char(7)]);
        }
        "7"
    } else if d == 8 {
        proof {
            reveal_strlit("8");
            assert("8"@ =~= seq![digit_char(8)]);
        }
        "8"
    } else {
        proof {
            reveal_strlit("9");
            assert("9"@ =~= seq![digit_char(9)]);
        }
        "9"
    }
}

/// Renders a natural number as its decimal numeral.
pub fn u64_to_string(n: u64) -> (r: String)
    ensures
        r@ == dec_str(n as nat),
    decreases n,
{
    if n < 10 {
        digit_str(n).to_owned()
    } else {
        let mut s = u64_to_string(n / 10);
        s.append(digit_str(n % 10));
        proof {
            assert(dec_str((n / 10) as nat) + seq![digit_char((n % 10) as nat)] =~= dec_str(
                (n / 10) as nat,
            ).push(digit_char((n % 10) as nat)));
            assert((n / 10) as nat == (n as nat) / 10);
            assert((n % 10) as nat == (n as nat) % 10);
        }
        s
    }
}

/// Renders a signed number as its decimal numeral.
pub fn i64_to_string(n: i64) -> (r: String)
    requires
        n > i64::MIN,
    ensures
        r@ == int_dec_str(n as int),
{
    if n < 0 {
        let mut s = "-".to_owned();
        let mag = u64_to_string((-n) as u64);
        s.append(mag.as_str());
        s
    } else {
        u64_to_string(n as u64)
    }
}

/// Parses a 32-bit signed id from its decimal numeral; fails on anything
/// that is not a sign and digits, and on magnitudes out of range.
pub fn parse_i32(s: &str) -> (r: Result<i32, ()>)
    ensures
        r is Ok <==> valid_i32_str(s@),
        r matches Ok(v) ==> v as int == i32_val(s@),
{
    let len = s.unicode_len();
    if len == 0 {
        return Err(());
    }
    let c0 = s.get_char(0);
    let neg = c0 == '-';
    let start: usize = if c0 == '-' || c0 == '+' {
        1
    } else {
        0
    };
    if start == len {
        return Err(());
    }
    let ghost body = s@.skip(start as int);
    let mut acc: u64 = 0;
    let mut i: usize = start;
    while i < len
        invariant
            start <= i <= len,
            start < len,
            len == s@.len(),
            start as int == sign_skip(s@),
            body == s@.skip(start as int),
            all_digits(body.take(i - start)),
            acc == digits_val(body.take(i - start)),
            acc <= 0x8000_0000,
            neg == (s@[0] == '-'),
        decreases len - i,
    {
        let c = s.get_char(i);
        let v = c as u32;
        if v < 48 || v > 57 {
            proof {
                assert(body[i - start] == s@[i as int]);
                assert(!is_digit(body[i - start]));
            }
            return Err(());
        }
        acc = acc * 10 + ((v - 48) as u64);
        i += 1;
        proof {
            let j = i - start;
            assert(body.take(j) =~= body.take(j - 1).push(body[j - 1]));
            assert(body.take(j).drop_last() =~= body.take(j - 1));
            assert(body[j - 1] == s@[i - 1]);
            assert(is_digit(body[j - 1]));
        }
        if acc > 0x8000_0000 {
            proof {
                if all_digits(body) {
                    lemma_digits_val_take_le(body, i - start);
                }
            }
            return Err(());
        }
    }
    proof {
        assert(body.take(len - start) =~= body);
    }
    if neg {
        Ok((-(acc as i64)) as i32)
    } else {
        if acc > 0x7fff_ffff {
            return Err(());
        }
        Ok(acc as i32)
    }
}

} // verus!
