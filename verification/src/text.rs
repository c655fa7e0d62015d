//! Character classification, digit arithmetic and decimal rendering.

use vstd::prelude::*;

verus! {

/// Whether `c` is an ASCII decimal digit.
pub open spec fn is_digit_char(c: char) -> bool {
    48 <= c as u32 <= 57
}

/// The numeric value of an ASCII digit character.
pub open spec fn digit_val(c: char) -> int {
    c as u32 - 48
}

/// Whether every character of `s` is an ASCII decimal digit.
pub open spec fn all_digits(s: Seq<char>) -> bool {
    forall|i: int| 0 <= i < s.len() ==> is_digit_char(#[trigger] s[i])
}

/// The numeric value of a digit string, most significant digit first.
pub open spec fn digits_value(s: Seq<char>) -> int
    decreases s.len(),
{
    if s.len() == 0 {
        0
    } else {
        digits_value(s.drop_last()) * 10 + digit_val(s.last())
    }
}

/// The digit character for a value between 0 and 9.
pub open spec fn digit_to_char(d: int) -> char {
    if d == 0 {
        '0'
    } else if d == 1 {
        '1'
    } else if d == 2 {
        '2'
    } else if d == 3 {
        '3'
    } else if d == 4 {
        '4'
    } else if d == 5 {
        '5'
    } else if d == 6 {
        '6'
    } else if d == 7 {
        '7'
    } else if d == 8 {
        '8'
    } else {
        '9'
    }
}

/// The decimal representation of a non-negative number, without a sign
/// and without leading zeros (zero itself is the single digit `0`).
pub open spec fn dec_digits(n: int) -> Seq<char>
    decreases n,
{
    if n < 10 {
        seq![digit_to_char(n)]
    } else {
        dec_digits(n / 10).push(digit_to_char(n % 10))
    }
}

/// The decimal representation of an integer, with a leading minus sign
/// when it is negative.
pub open spec fn int_rep(i: int) -> Seq<char> {
    if i < 0 {
        seq!['-'] + dec_digits(-i)
    } else {
        dec_digits(i)
    }
}

/// Exact classification of this character as an ASCII decimal digit.
pub fn digit_char(c: char) -> (r: bool)
    ensures
        r == is_digit_char(c),
{
    let u = c as u32;
    48 <= u && u <= 57
}

/// The name of the set of characters that `char::is_whitespace` accepts:
/// the Unicode `White_Space` property.
pub uninterp spec fn whitespace_class(c: char) -> bool;

/// The name of the set of characters that `char::is_alphabetic` accepts:
/// the Unicode `Alphabetic` property.
pub uninterp spec fn alphabetic_class(c: char) -> bool;

/// Relies on char::is_whitespace: the result depends on the character
/// alone, and of the ASCII characters exactly tab, line feed, vertical
/// tab, form feed, carriage return and space have the property.
#[verifier::external_body]
pub fn is_whitespace_char(c: char) -> (r: bool)
    ensures
        r == whitespace_class(c),
        (c as u32) < 128 ==> (r == (9 <= c as u32 && c as u32 <= 13 || c as u32 == 32)),
{
    c.is_whitespace()
}

/// Relies on char::is_alphabetic: the result depends on the character
/// alone, and of the ASCII characters exactly the letters a-z and A-Z
/// have the property.
#[verifier::external_body]
pub fn is_alphabetic_char(c: char) -> (r: bool)
    ensures
        r == alphabetic_class(c),
        (c as u32) < 128 ==> (r == (65 <= c as u32 && c as u32 <= 90 || 97 <= c as u32 && c as u32 <= 122)),
{
    c.is_alphabetic()
}

/// Character-for-character equality of two string slices.
pub fn str_eq(a: &str, b: &str) -> (r: bool)
    ensures
        r == (a@ == b@),
{
    let alen = a.unicode_len();
    let blen = b.unicode_len();
    if alen != blen {
        assert(a@ != b@) by {
            assert(a@.len() != b@.len());
        }
        return false;
    }
    let mut i: usize = 0;
    while i < alen
        invariant
            0 <= i <= alen,
            alen == a@.len(),
            alen == b@.len(),
            forall|j: int| 0 <= j < i ==> a@[j] == b@[j],
        decreases alen - i,
    {
        if a.get_char(i) != b.get_char(i) {
            return false;
        }
        i = i + 1;
    }
    proof {
        assert(a@ =~= b@);
    }
    true
}

/// The digit string for a value between 0 and 9.
pub fn digit_str(d: u64) -> (s: &'static str)
    requires
        0 <= d <= 9,
    ensures
        s@ == seq![digit_to_char(d as int)],
{
    proof {
        reveal_strlit("0");
        reveal_strlit("1");
        reveal_strlit("2");
        reveal_strlit("3");
        reveal_strlit("4");
        reveal_strlit("5");
        reveal_strlit("6");
        reveal_strlit("7");
        reveal_strlit("8");
        reveal_strlit("9");
    }
    if d == 0 {
        "0"
    } else if d == 1 {
        "1"
    } else if d == 2 {
        "2"
    } else if d == 3 {
        "3"
    } else if d == 4 {
        "4"
    } else if d == 5 {
        "5"
    } else if d == 6 {
        "6"
    } else if d == 7 {
        "7"
    } else if d == 8 {
        "8"
    } else {
        "9"
    }
}

/// Appends the decimal digits of `m` to `s`.
fn push_digits(s: &mut String, m: u64)
    ensures
        final(s)@ == old(s)@ + dec_digits(m as int),
    decreases m,
{
    if m >= 10 {
        push_digits(s, m / 10);
        s.append(digit_str(m % 10));
    } else {
        s.append(digit_str(m));
    }
}

/// The decimal rendering of a 32-bit integer.
pub fn i32_to_string(v: i32) -> (s: String)
    ensures
        s@ == int_rep(v as int),
{
    proof {
        reveal_strlit("-");
    }
    let mut s = String::new();
    if v < 0 {
        s.append("-");
        let m: u64 = (-(v as i64)) as u64;
        push_digits(&mut s, m);
        assert(s@ == int_rep(v as int));
    } else {
        push_digits(&mut s, v as u64);
    }
    s
}

/// The decimal rendering of a machine word.
pub fn usize_to_string(v: usize) -> (s: String)
    ensures
        s@ == dec_digits(v as int),
{
    let mut s = String::new();
    push_digits(&mut s, v as u64);
    s
}

/// Writing a non-negative number in decimal and reading the digits back
/// yields the number itself.
pub proof fn lemma_decimal_value_round_trip(n: int)
    requires
        0 <= n,
    ensures
        digits_value(dec_digits(n)) == n,
    decreases n,
{
    if n < 10 {
        let s = seq![digit_to_char(n)];
        assert(dec_digits(n) == s);
        assert(s.drop_last() =~= Seq::<char>::empty());
        assert(digits_value(s.drop_last()) == 0);
        assert(s.last() == digit_to_char(n));
        assert(digit_val(digit_to_char(n)) == n);
    } else {
        lemma_decimal_value_round_trip(n / 10);
        let d = dec_digits(n / 10).push(digit_to_char(n % 10));
        assert(d.drop_last() == dec_digits(n / 10));
        assert(d.last() == digit_to_char(n % 10));
        assert(digit_val(digit_to_char(n % 10)) == n % 10);
    }
}

/// The decimal representation holds only digit characters.
pub proof fn lemma_dec_digits_all_digits(n: int)
    requires
        0 <= n,
    ensures
        all_digits(dec_digits(n)),
        dec_digits(n).len() >= 1,
    decreases n,
{
    if n < 10 {
        assert(is_digit_char(digit_to_char(n)));
    } else {
        lemma_dec_digits_all_digits(n / 10);
        assert(is_digit_char(digit_to_char(n % 10)));
        let d = dec_digits(n / 10).push(digit_to_char(n % 10));
        assert forall|i: int| 0 <= i < d.len() implies is_digit_char(#[trigger] d[i]) by {
            if i < d.len() - 1 {
                assert(d[i] == dec_digits(n / 10)[i]);
            }
        }
    }
}

} // verus!
