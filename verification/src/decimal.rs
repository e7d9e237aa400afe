//! Decimal notation of integers, as it appears in the stored document and in
//! the position numbers of a listing.

use vstd::prelude::*;

verus! {

/// The character that writes the digit `d`, for `d` from 0 to 9.
pub open spec fn digit_char(d: int) -> char {
    if d == 0 {
        '0'
    } else if d == 1 {
        '1'
    } else if d == 2 {
        '2'
    } else if d == 3 {
        '3'
    } else if d == 4 {
        '4'
    } else if d == 5 {
        '5'
    } else if d == 6 {
        '6'
    } else if d == 7 {
        '7'
    } else if d == 8 {
        '8'
    } else {
        '9'
    }
}

/// A natural number in decimal: most significant digit first, no leading
/// zero, and `0` written as the single digit.
pub open spec fn decimal_nat(n: nat) -> Seq<char>
    decreases n,
{
    if n < 10 {
        seq![digit_char(n as int)]
    } else {
        decimal_nat(n / 10).push(digit_char((n % 10) as int))
    }
}

/// An integer in decimal: a minus sign before the magnitude of a negative
/// number, nothing before the others.
pub open spec fn decimal_int(n: int) -> Seq<char> {
    if n < 0 {
        seq!['-'] + decimal_nat((-n) as nat)
    } else {
        decimal_nat(n as nat)
    }
}

/// Whether `c` is one of the ten digits.
pub open spec fn is_digit(c: char) -> bool {
    exists|d: int| 0 <= d <= 9 && c == #[trigger] digit_char(d)
}

/// The notation of a natural number is never empty and holds digits only.
pub proof fn decimal_nat_digits(n: nat)
    ensures
        decimal_nat(n).len() >= 1,
        n >= 10 ==> decimal_nat(n).len() >= 2,
        forall|i: int| 0 <= i < decimal_nat(n).len() ==> is_digit(#[trigger] decimal_nat(n)[i]),
    decreases n,
{
    if n >= 10 {
        decimal_nat_digits(n / 10);
    }
}

/// Two natural numbers with the same notation are the same number.
pub proof fn decimal_nat_is_injective(a: nat, b: nat)
    requires
        decimal_nat(a) == decimal_nat(b),
    ensures
        a == b,
    decreases a,
{
    decimal_nat_digits(a);
    decimal_nat_digits(b);
    if a < 10 && b < 10 {
        assert(decimal_nat(b)[0] == digit_char(b as int));
    } else if a >= 10 && b >= 10 {
        let shared = decimal_nat(a);
        assert(decimal_nat(a / 10) =~= shared.drop_last());
        assert(decimal_nat(b / 10) =~= shared.drop_last());
        decimal_nat_is_injective(a / 10, b / 10);
        assert(digit_char((b % 10) as int) == shared.last());
    }
}

/// Two integers with the same notation are the same number: the notation
/// of a creation second loses nothing of it.
pub proof fn decimal_int_is_injective(a: int, b: int)
    requires
        decimal_int(a) == decimal_int(b),
    ensures
        a == b,
{
    let na: nat = if a < 0 { (-a) as nat } else { a as nat };
    let nb: nat = if b < 0 { (-b) as nat } else { b as nat };
    decimal_nat_digits(na);
    decimal_nat_digits(nb);
    if a < 0 && b < 0 {
        assert(decimal_nat(na) =~= decimal_int(a).subrange(1, decimal_int(a).len() as int));
        assert(decimal_nat(nb) =~= decimal_int(b).subrange(1, decimal_int(b).len() as int));
        decimal_nat_is_injective(na, nb);
    } else if a >= 0 && b >= 0 {
        decimal_nat_is_injective(na, nb);
    } else if a < 0 {
        assert(is_digit(decimal_nat(nb)[0]));
    } else {
        assert(is_digit(decimal_nat(na)[0]));
    }
}

/// The one-character string of a digit.
fn digit_text(d: u64) -> (text: &'static str)
    requires
        d < 10,
    ensures
        text@ == seq![digit_char(d as int)],
{
    proof {
        reveal_strlit("0");
        reveal_strlit("1");
        reveal_strlit("2");
        reveal_strlit("3");
        reveal_strlit("4");
        reveal_strlit("5");
        reveal_strlit("6");
        reveal_strlit("7");
        reveal_strlit("8");
        reveal_strlit("9");
    }
    if d == 0 {
        "0"
    } else if d == 1 {
        "1"
    } else if d == 2 {
        "2"
    } else if d == 3 {
        "3"
    } else if d == 4 {
        "4"
    } else if d == 5 {
        "5"
    } else if d == 6 {
        "6"
    } else if d == 7 {
        "7"
    } else if d == 8 {
        "8"
    } else {
        "9"
    }
}

/// Writes an unsigned number in decimal.
pub fn decimal_of_u64(n: u64) -> (text: String)
    ensures
        text@ == decimal_nat(n as nat),
    decreases n,
{
    if n < 10 {
        String::from_str(digit_text(n))
    } else {
        let mut text: String = decimal_of_u64(n / 10);
        text.append(digit_text(n % 10));
        text
    }
}

/// Writes a signed number in decimal.
pub fn decimal_of_i64(n: i64) -> (text: String)
    ensures
        text@ == decimal_int(n as int),
{
    if n >= 0 {
        decimal_of_u64(n as u64)
    } else {
        let magnitude: u64 = ((-(n + 1)) as u64) + 1;
        proof {
            reveal_strlit("-");
        }
        let mut text: String = String::from_str("-");
        let digits: String = decimal_of_u64(magnitude);
        text.append(digits.as_str());
        text
    }
}

} // verus!
