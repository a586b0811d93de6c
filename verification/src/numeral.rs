//! Rendering of machine integers as text, in hexadecimal and in decimal.
//!
//! Offsets and lengths appear in the emitted commands in hexadecimal with a
//! `0x` prefix, lower case and without leading zeros; the headline of a plan
//! shows them in decimal. Both renderings are defined here as sequences of
//! characters, and shown to name their number and no other.

use vstd::prelude::*;
use vstd::string::*;

verus! {

/// The sixteen digit characters, in the order of their values.
pub open spec fn digit_alphabet() -> Seq<char> {
    seq!['0', '1', '2', '3', '4', '5', '6', '7', '8', '9', 'a', 'b', 'c', 'd', 'e', 'f']
}

/// The character that stands for the digit value `d`.
pub open spec fn digit_char(d: nat) -> char
    recommends
        d < 16,
{
    digit_alphabet()[d as int]
}

/// The digit value that the character `c` stands for; 16 if it stands for none.
pub open spec fn digit_value(c: char) -> nat {
    if digit_alphabet().contains(c) {
        digit_alphabet().index_of(c) as nat
    } else {
        16
    }
}

/// The hexadecimal digits of `n`, most significant first, without prefix.
pub open spec fn hex_digits(n: nat) -> Seq<char>
    decreases n,
{
    if n < 16 {
        seq![digit_char(n)]
    } else {
        hex_digits(n / 16).push(digit_char(n % 16))
    }
}

/// The decimal digits of `n`, most significant first.
pub open spec fn decimal_digits(n: nat) -> Seq<char>
    decreases n,
{
    if n < 10 {
        seq![digit_char(n)]
    } else {
        decimal_digits(n / 10).push(digit_char(n % 10))
    }
}

/// The prefix that marks a hexadecimal number.
pub open spec fn hex_prefix() -> Seq<char> {
    seq!['0', 'x']
}

/// `n` as it is written in a command: `0x` and its hexadecimal digits.
pub open spec fn hex_text(n: nat) -> Seq<char> {
    hex_prefix() + hex_digits(n)
}

/// The number that a sequence of digits denotes in the given base.
pub open spec fn digits_value(digits: Seq<char>, base: nat) -> nat
    decreases digits.len(),
{
    if digits.len() == 0 {
        0
    } else {
        digits_value(digits.drop_last(), base) * base + digit_value(digits.last())
    }
}

/// Each digit character stands for its own value.
pub proof fn lemma_digit_value_of_char(d: nat)
    requires
        d < 16,
    ensures
        digit_value(digit_char(d)) == d,
{
    let a = digit_alphabet();
    assert(a.len() == 16);
    assert(a[d as int] == digit_char(d));
    assert(a.contains(digit_char(d)));
    let i = a.index_of(digit_char(d));
    assert(0 <= i < 16 && a[i] == a[d as int]);
    assert(forall|j: int, k: int| 0 <= j < 16 && 0 <= k < 16 && a[j] == a[k] ==> j == k);
}

/// Reading the hexadecimal digits of a number gives the number back, so two
/// numbers with the same hexadecimal digits are the same number.
pub proof fn lemma_hex_digits_roundtrip(n: nat)
    ensures
        digits_value(hex_digits(n), 16) == n,
        hex_digits(n).len() >= 1,
    decreases n,
{
    if n < 16 {
        let s = hex_digits(n);
        assert(s.len() == 1);
        assert(s.drop_last().len() == 0);
        assert(s.last() == digit_char(n));
        lemma_digit_value_of_char(n);
        assert(digits_value(s.drop_last(), 16) == 0);
    } else {
        let s = hex_digits(n);
        lemma_hex_digits_roundtrip(n / 16);
        assert(s.drop_last() =~= hex_digits(n / 16));
        assert(s.last() == digit_char(n % 16));
        lemma_digit_value_of_char(n % 16);
    }
}

/// Reading the decimal digits of a number gives the number back.
pub proof fn lemma_decimal_digits_roundtrip(n: nat)
    ensures
        digits_value(decimal_digits(n), 10) == n,
        decimal_digits(n).len() >= 1,
    decreases n,
{
    if n < 10 {
        let s = decimal_digits(n);
        assert(s.len() == 1);
        assert(s.drop_last().len() == 0);
        assert(s.last() == digit_char(n));
        lemma_digit_value_of_char(n);
        assert(digits_value(s.drop_last(), 10) == 0);
    } else {
        let s = decimal_digits(n);
        lemma_decimal_digits_roundtrip(n / 10);
        assert(s.drop_last() =~= decimal_digits(n / 10));
        assert(s.last() == digit_char(n % 10));
        lemma_digit_value_of_char(n % 10);
    }
}

/// Different numbers are written differently in hexadecimal.
pub proof fn lemma_hex_text_injective(m: nat, n: nat)
    requires
        hex_text(m) == hex_text(n),
    ensures
        m == n,
{
    let p = hex_prefix();
    assert(hex_text(m).subrange(p.len() as int, hex_text(m).len() as int) =~= hex_digits(m));
    assert(hex_text(n).subrange(p.len() as int, hex_text(n).len() as int) =~= hex_digits(n));
    lemma_hex_digits_roundtrip(m);
    lemma_hex_digits_roundtrip(n);
}

/// The one-character text of the digit value `d`.
fn digit_text(d: usize) -> (text: &'static str)
    requires
        d < 16,
    ensures
        text@ == seq![digit_char(d as nat)],
{
    let all: &'static str = "0123456789abcdef";
    proof {
        reveal_strlit("0123456789abcdef");
        assert(all@ =~= digit_alphabet());
        assert(forall|i: int| 0 <= i < all@.len() ==> (all@[i] as u32) < 128);
    }
    let text: &'static str = all.substring_ascii(d, d + 1);
    assert(text@ =~= seq![digit_char(d as nat)]);
    text
}

/// Writes `n` in hexadecimal digits, most significant first, without prefix.
fn hex_digits_of(n: usize) -> (text: String)
    ensures
        text@ == hex_digits(n as nat),
{
    let mut text: String = String::from_str(digit_text(n % 16));
    let mut rest: usize = n / 16;
    while rest > 0
        invariant
            rest > 0 ==> hex_digits(n as nat) == hex_digits(rest as nat) + text@,
            rest == 0 ==> hex_digits(n as nat) == text@,
        decreases rest,
    {
        let ghost before = text@;
        let ghost upper = rest;
        text = String::from_str(digit_text(rest % 16)).concat(text.as_str());
        rest = rest / 16;
        proof {
            let digit = seq![digit_char((upper % 16) as nat)];
            assert(text@ == digit + before);
            if rest > 0 {
                assert(hex_digits(upper as nat) == hex_digits(rest as nat).push(
                    digit_char((upper % 16) as nat),
                ));
                assert(hex_digits(rest as nat).push(digit_char((upper % 16) as nat)) + before
                    =~= hex_digits(rest as nat) + (digit + before));
            } else {
                assert(hex_digits(upper as nat) == digit);
            }
        }
    }
    text
}

/// Renders `n` in hexadecimal with the `0x` prefix, lower case, no leading
/// zeros: `4096` becomes `0x1000`, and `0` becomes `0x0`.
pub fn to_hex(n: usize) -> (text: String)
    ensures
        text@ == hex_text(n as nat),
{
    let digits: String = hex_digits_of(n);
    proof {
        reveal_strlit("0x");
        assert("0x"@ =~= hex_prefix());
    }
    String::from_str("0x").concat(digits.as_str())
}

/// Renders `n` in decimal, without sign or leading zeros.
pub fn to_decimal(n: usize) -> (text: String)
    ensures
        text@ == decimal_digits(n as nat),
{
    let mut text: String = String::from_str(digit_text(n % 10));
    let mut rest: usize = n / 10;
    while rest > 0
        invariant
            rest > 0 ==> decimal_digits(n as nat) == decimal_digits(rest as nat) + text@,
            rest == 0 ==> decimal_digits(n as nat) == text@,
        decreases rest,
    {
        let ghost before = text@;
        let ghost upper = rest;
        text = String::from_str(digit_text(rest % 10)).concat(text.as_str());
        rest = rest / 10;
        proof {
            let digit = seq![digit_char((upper % 10) as nat)];
            assert(text@ == digit + before);
            if rest > 0 {
                assert(decimal_digits(upper as nat) == decimal_digits(rest as nat).push(
                    digit_char((upper % 10) as nat),
                ));
                assert(decimal_digits(rest as nat).push(digit_char((upper % 10) as nat)) + before
                    =~= decimal_digits(rest as nat) + (digit + before));
            } else {
                assert(decimal_digits(upper as nat) == digit);
            }
        }
    }
    text
}

} // verus!
