//! Decimal rendering of integers as character sequences, shared by the date,
//! time and web-service modules.

use vstd::prelude::*;

verus! {

/// The character for a single decimal digit.
pub open spec fn char_digito(d: int) -> char {
    if d == 0 {
        '0'
    } else if d == 1 {
        '1'
    } else if d == 2 {
        '2'
    } else if d == 3 {
        '3'
    } else if d == 4 {
        '4'
    } else if d == 5 {
        '5'
    } else if d == 6 {
        '6'
    } else if d == 7 {
        '7'
    } else if d == 8 {
        '8'
    } else {
        '9'
    }
}

/// Decimal digits of a non-negative integer, most significant first,
/// without sign and without leading zeros (a single `'0'` for zero).
pub open spec fn texto_decimal_nat(n: nat) -> Seq<char>
    decreases n,
{
    if n < 10 {
        seq![char_digito(n as int)]
    } else {
        texto_decimal_nat(n / 10).push(char_digito((n % 10) as int))
    }
}

/// Decimal rendering of an integer, with a leading `'-'` when negative.
pub open spec fn texto_decimal(n: int) -> Seq<char> {
    if n < 0 {
        seq!['-'] + texto_decimal_nat((-n) as nat)
    } else {
        texto_decimal_nat(n as nat)
    }
}

/// Decimal rendering padded on the left with `'0'` to width two, as the
/// format directive `{:0>2}` pads (a negative number keeps its sign and is
/// only padded while shorter than two characters).
pub open spec fn texto_dos_digitos(n: int) -> Seq<char> {
    if 0 <= n < 10 {
        seq!['0'] + texto_decimal(n)
    } else {
        texto_decimal(n)
    }
}

/// One decimal digit as a string slice.
fn digito_str(d: u64) -> (r: &'static str)
    requires
        d < 10,
    ensures
        r@ =~= seq![char_digito(d as int)],
{
    proof {
        reveal_strlit("0");
        reveal_strlit("1");
        reveal_strlit("2");
        reveal_strlit("3");
        reveal_strlit("4");
        reveal_strlit("5");
        reveal_strlit("6");
        reveal_strlit("7");
        reveal_strlit("8");
        reveal_strlit("9");
    }
    if d == 0 {
        "0"
    } else if d == 1 {
        "1"
    } else if d == 2 {
        "2"
    } else if d == 3 {
        "3"
    } else if d == 4 {
        "4"
    } else if d == 5 {
        "5"
    } else if d == 6 {
        "6"
    } else if d == 7 {
        "7"
    } else if d == 8 {
        "8"
    } else {
        "9"
    }
}

/// Renders a non-negative number in decimal.
pub fn u64_a_texto(n: u64) -> (r: String)
    ensures
        r@ == texto_decimal_nat(n as nat),
    decreases n,
{
    if n < 10 {
        String::from_str(digito_str(n))
    } else {
        let inicio = u64_a_texto(n / 10);
        let r = inicio.concat(digito_str(n % 10));
        proof {
            assert(r@ =~= texto_decimal_nat((n / 10) as nat).push(char_digito((n % 10) as int)));
        }
        r
    }
}

/// Renders a signed number in decimal, `'-'` first when negative.
pub fn i64_a_texto(n: i64) -> (r: String)
    ensures
        r@ == texto_decimal(n as int),
{
    if n >= 0 {
        u64_a_texto(n as u64)
    } else {
        let magnitud: u64 = if n == i64::MIN {
            9223372036854775808u64
        } else {
            (-n) as u64
        };
        let r = String::from_str("-").concat(u64_a_texto(magnitud).as_str());
        proof {
            reveal_strlit("-");
            assert(r@ =~= seq!['-'] + texto_decimal_nat((-(n as int)) as nat));
        }
        r
    }
}

/// Renders a signed number zero-padded on the left to width two.
pub fn i64_a_texto_dos(n: i64) -> (r: String)
    ensures
        r@ == texto_dos_digitos(n as int),
{
    if 0 <= n && n < 10 {
        let r = String::from_str("0").concat(i64_a_texto(n).as_str());
        proof {
            reveal_strlit("0");
            assert(r@ =~= seq!['0'] + texto_decimal(n as int));
        }
        r
    } else {
        i64_a_texto(n)
    }
}

} // verus!
