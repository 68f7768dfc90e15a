//! Decimal ASCII text for lengths: what the server sends back for each unit
//! of work it receives.

use vstd::prelude::*;
use vstd::string::StringExecFns;

verus! {

/// The ASCII code of the digit `d`, for `d` below ten.
pub open spec fn digit_byte(d: nat) -> u8 {
    (48 + d) as u8
}

/// Whether `b` is the ASCII code of a decimal digit.
pub open spec fn is_digit_byte(b: u8) -> bool {
    48 <= b <= 57
}

/// The decimal ASCII encoding of `n`: most significant digit first, no
/// leading zero, and the single digit `0` for zero.
pub open spec fn decimal(n: nat) -> Seq<u8>
    decreases n,
{
    if n < 10 {
        seq![digit_byte(n)]
    } else {
        decimal(n / 10).push(digit_byte(n % 10))
    }
}

/// The number that a string of digits denotes, read most significant digit
/// first. The empty string denotes zero.
pub open spec fn decimal_value(s: Seq<u8>) -> nat
    decreases s.len(),
{
    if s.len() == 0 {
        0
    } else {
        decimal_value(s.drop_last()) * 10 + (s.last() - 48) as nat
    }
}

/// A canonical numeral: at least one byte, digits only, and no leading zero
/// unless the numeral is the single digit `0`.
pub open spec fn is_numeral(s: Seq<u8>) -> bool {
    &&& s.len() >= 1
    &&& forall|i: int| 0 <= i < s.len() ==> is_digit_byte(#[trigger] s[i])
    &&& s.len() > 1 ==> s[0] != 48
}

/// The encoding of any number is a canonical numeral.
pub proof fn law_decimal_is_numeral(n: nat)
    ensures
        is_numeral(decimal(n)),
        n >= 1 ==> decimal(n)[0] != 48,
    decreases n,
{
    if n >= 10 {
        law_decimal_is_numeral(n / 10);
        let front = decimal(n / 10);
        let s = decimal(n);
        assert(s == front.push(digit_byte(n % 10)));
        assert(s[0] == front[0]);
        assert forall|i: int| 0 <= i < s.len() implies is_digit_byte(#[trigger] s[i]) by {
            if i < front.len() {
                assert(s[i] == front[i]);
            }
        }
    }
}

/// Reading an encoding back gives the number that was encoded, so distinct
/// numbers have distinct encodings.
pub proof fn law_decimal_round_trip(n: nat)
    ensures
        decimal_value(decimal(n)) == n,
    decreases n,
{
    let s = decimal(n);
    if n < 10 {
        assert(s.drop_last() =~= Seq::<u8>::empty());
        assert(decimal_value(s.drop_last()) == 0);
        assert(s.last() == digit_byte(n));
    } else {
        law_decimal_round_trip(n / 10);
        assert(s.drop_last() =~= decimal(n / 10));
        assert(s.last() == digit_byte(n % 10));
    }
}

/// A canonical numeral is the encoding of the number it denotes: `decimal`
/// is the only way to write a number canonically.
pub proof fn law_numeral_is_decimal(s: Seq<u8>)
    requires
        is_numeral(s),
    ensures
        s == decimal(decimal_value(s)),
    decreases s.len(),
{
    let last = (s.last() - 48) as nat;
    if s.len() == 1 {
        assert(s.drop_last() =~= Seq::<u8>::empty());
        assert(decimal_value(s.drop_last()) == 0);
        assert(s =~= seq![digit_byte(last)]);
    } else {
        let front = s.drop_last();
        assert(is_numeral(front));
        law_numeral_is_decimal(front);
        lemma_numeral_is_positive(front);
        let v = decimal_value(front);
        assert(decimal_value(s) == v * 10 + last);
        assert((v * 10 + last) / 10 == v && (v * 10 + last) % 10 == last);
        assert(s =~= front.push(digit_byte(last)));
    }
}

/// A canonical numeral of two or more digits, or a single digit other than
/// `0`, denotes a positive number.
proof fn lemma_numeral_is_positive(s: Seq<u8>)
    requires
        is_numeral(s),
    ensures
        s.len() > 1 || s[0] != 48 ==> decimal_value(s) >= 1,
    decreases s.len(),
{
    if s.len() == 1 {
        assert(s.drop_last() =~= Seq::<u8>::empty());
        assert(decimal_value(s.drop_last()) == 0);
    } else {
        let front = s.drop_last();
        assert(is_numeral(front));
        assert(front[0] == s[0]);
        lemma_numeral_is_positive(front);
    }
}

/// Writes `n` in decimal ASCII.
pub fn encode_decimal(n: usize) -> (out: Vec<u8>)
    ensures
        out@ == decimal(n as nat),
    decreases n,
{
    if n < 10 {
        let mut out: Vec<u8> = Vec::new();
        out.push(48u8 + n as u8);
        out
    } else {
        let mut out = encode_decimal(n / 10);
        out.push(48u8 + (n % 10) as u8);
        out
    }
}

/// The decimal encoding of `n` as text: the characters whose ASCII codes are
/// the bytes of `decimal(n)`.
pub open spec fn decimal_text(n: nat) -> Seq<char> {
    decimal(n).map_values(|b: u8| b as char)
}

/// The one-character string for the digit `d`.
fn digit_str(d: usize) -> (s: &'static str)
    requires
        d < 10,
    ensures
        s@ == seq![digit_byte(d as nat) as char],
{
    proof {
        reveal_strlit("0");
        reveal_strlit("1");
        reveal_strlit("2");
        reveal_strlit("3");
        reveal_strlit("4");
        reveal_strlit("5");
        reveal_strlit("6");
        reveal_strlit("7");
        reveal_strlit("8");
        reveal_strlit("9");
    }
    let s = match d {
        0 => "0",
        1 => "1",
        2 => "2",
        3 => "3",
        4 => "4",
        5 => "5",
        6 => "6",
        7 => "7",
        8 => "8",
        _ => "9",
    };
    assert(s@ =~= seq![digit_byte(d as nat) as char]);
    s
}

/// Writes `n` in decimal as a string.
pub fn decimal_string(n: usize) -> (out: String)
    ensures
        out@ == decimal_text(n as nat),
    decreases n,
{
    if n < 10 {
        let out = String::from_str(digit_str(n));
        assert(out@ =~= decimal_text(n as nat));
        out
    } else {
        let out = decimal_string(n / 10).concat(digit_str(n % 10));
        assert(out@ =~= decimal_text(n as nat));
        out
    }
}

} // verus!
