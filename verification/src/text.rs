//! Numbers as text, for the messages that errors and outcomes carry.

use vstd::prelude::*;
use vstd::string::StringExecFns;

verus! {

/// The character for one digit.
pub open spec fn digit_char(d: nat) -> char {
    if d == 0 {
        '0'
    } else if d == 1 {
        '1'
    } else if d == 2 {
        '2'
    } else if d == 3 {
        '3'
    } else if d == 4 {
        '4'
    } else if d == 5 {
        '5'
    } else if d == 6 {
        '6'
    } else if d == 7 {
        '7'
    } else if d == 8 {
        '8'
    } else {
        '9'
    }
}

/// `n` written in `base`, most significant digit first, without leading zeros.
pub open spec fn numeral(n: nat, base: nat) -> Seq<char>
    decreases n,
{
    if n < base || base < 2 {
        seq![digit_char(n)]
    } else {
        proof {
            assert(n / base < n) by (nonlinear_arith)
                requires
                    2 <= base <= n,
            ;
        }
        numeral(n / base, base).push(digit_char(n % base))
    }
}

/// `n` in decimal.
pub open spec fn decimal(n: nat) -> Seq<char> {
    numeral(n, 10)
}

/// `n` in decimal with a minus sign when it is negative.
pub open spec fn signed_decimal(n: int) -> Seq<char> {
    if n < 0 {
        seq!['-'] + decimal((-n) as nat)
    } else {
        decimal(n as nat)
    }
}

/// One digit as a string.
fn digit_text(d: u64) -> (s: &'static str)
    requires
        d < 10,
    ensures
        s@ == seq![digit_char(d as nat)],
{
    proof {
        reveal_strlit("0");
        reveal_strlit("1");
        reveal_strlit("2");
        reveal_strlit("3");
        reveal_strlit("4");
        reveal_strlit("5");
        reveal_strlit("6");
        reveal_strlit("7");
        reveal_strlit("8");
        reveal_strlit("9");
    }
    let s = match d {
        0 => "0",
        1 => "1",
        2 => "2",
        3 => "3",
        4 => "4",
        5 => "5",
        6 => "6",
        7 => "7",
        8 => "8",
        _ => "9",
    };
    assert(s@ =~= seq![digit_char(d as nat)]);
    s
}

/// Write `n` in `base`.
pub fn numeral_text(n: u64, base: u64) -> (s: String)
    requires
        2 <= base <= 10,
    ensures
        s@ == numeral(n as nat, base as nat),
    decreases n,
{
    if n < base {
        String::from_str(digit_text(n))
    } else {
        assert(n / base < n) by (nonlinear_arith)
            requires
                2 <= base <= n,
        ;
        let head = numeral_text(n / base, base);
        let s = head.concat(digit_text(n % base));
        assert(s@ =~= numeral(n as nat, base as nat));
        s
    }
}

/// Append `n` in decimal to `s`.
pub fn with_decimal(s: String, n: u64) -> (r: String)
    ensures
        r@ == s@ + decimal(n as nat),
{
    let digits = numeral_text(n, 10);
    s.concat(digits.as_str())
}

/// Append `n` in decimal, signed, to `s`.
pub fn with_signed_decimal(s: String, n: i32) -> (r: String)
    ensures
        r@ == s@ + signed_decimal(n as int),
{
    if n < 0 {
        proof {
            reveal_strlit("-");
        }
        let magnitude: i64 = -(n as i64);
        let r = with_decimal(s.concat("-"), magnitude as u64);
        assert("-"@ =~= seq!['-']);
        assert(r@ =~= s@ + signed_decimal(n as int));
        r
    } else {
        with_decimal(s, n as u64)
    }
}

/// The number that digits stand for, read from the left in `base`.
pub open spec fn reading(digits: Seq<char>, base: nat) -> nat
    decreases digits.len(),
{
    if digits.len() == 0 {
        0
    } else {
        reading(digits.drop_last(), base) * base + (digits.last() as nat - 48) as nat
    }
}

/// A numeral reads as its number, has only digits below the base, and starts
/// with a zero only where that is all of it.
pub proof fn numerals_read_back(n: nat, base: nat)
    requires
        2 <= base <= 10,
    ensures
        reading(numeral(n, base), base) == n,
        numeral(n, base).len() > 0,
        numeral(n, base)[0] == '0' ==> n == 0 && numeral(n, base).len() == 1,
        forall|i: int|
            0 <= i < numeral(n, base).len() ==> 48 <= (#[trigger] numeral(n, base)[i] as nat)
                && (numeral(n, base)[i] as nat) < 48 + base,
    decreases n,
{
    let s = numeral(n, base);
    if n < base {
        assert(s.drop_last() =~= Seq::empty());
        assert(reading(s.drop_last(), base) == 0);
        assert(0 * base == 0) by (nonlinear_arith);
    } else {
        assert(n / base < n && n / base >= 1) by (nonlinear_arith)
            requires
                2 <= base <= n,
        ;
        assert(n == (n / base) * base + n % base && n % base < base) by (nonlinear_arith)
            requires
                2 <= base,
        ;
        numerals_read_back(n / base, base);
        assert(s.drop_last() =~= numeral(n / base, base));
        assert(s[0] == numeral(n / base, base)[0]);
    }
}

/// A signed number has a minus sign exactly where it is negative, and the
/// digits read as its distance from zero.
pub proof fn signed_numbers_read_back(n: int)
    ensures
        n >= 0 ==> reading(signed_decimal(n), 10) == n && signed_decimal(n)[0] != '-',
        n < 0 ==> signed_decimal(n)[0] == '-' && reading(signed_decimal(n).drop_first(), 10) == -n,
        n >= 0 ==> signed_decimal(n) == decimal(n as nat),
{
    if n < 0 {
        numerals_read_back((-n) as nat, 10);
        assert(signed_decimal(n).drop_first() =~= decimal((-n) as nat));
    } else {
        numerals_read_back(n as nat, 10);
    }
}

} // verus!
