//! Decimal text of integers, as it appears in log fields and metric labels.
use vstd::prelude::*;
use vstd::string::*;

verus! {

/// The character that stands for a single decimal digit.
pub open spec fn digit_char(d: nat) -> char {
    if d == 0 {
        '0'
    } else if d == 1 {
        '1'
    } else if d == 2 {
        '2'
    } else if d == 3 {
        '3'
    } else if d == 4 {
        '4'
    } else if d == 5 {
        '5'
    } else if d == 6 {
        '6'
    } else if d == 7 {
        '7'
    } else if d == 8 {
        '8'
    } else {
        '9'
    }
}

/// The decimal digits of a natural number, most significant first, without
/// leading zeros; zero is the single digit `0`.
pub open spec fn decimal_digits(n: nat) -> Seq<char>
    decreases n,
{
    if n < 10 {
        seq![digit_char(n)]
    } else {
        decimal_digits(n / 10).push(digit_char(n % 10))
    }
}

/// The decimal text of an integer: a minus sign before the digits of a
/// negative number, the bare digits otherwise.
pub open spec fn decimal_text(i: int) -> Seq<char> {
    if i < 0 {
        seq!['-'] + decimal_digits((-i) as nat)
    } else {
        decimal_digits(i as nat)
    }
}

/// Whether a character is one of the ten decimal digits.
pub open spec fn is_digit(c: char) -> bool {
    '0' <= c <= '9'
}

/// The digits of a number are at least one, and each is a decimal digit.
pub proof fn decimal_digits_are_digits(n: nat)
    ensures
        decimal_digits(n).len() >= 1,
        n >= 10 ==> decimal_digits(n).len() >= 2,
        forall|k: int|
            0 <= k < decimal_digits(n).len() ==> is_digit(#[trigger] decimal_digits(n)[k]),
    decreases n,
{
    if n >= 10 {
        decimal_digits_are_digits(n / 10);
    }
}

/// Different numbers have different digits.
pub proof fn decimal_digits_are_unique(n: nat, m: nat)
    requires
        decimal_digits(n) == decimal_digits(m),
    ensures
        n == m,
    decreases n,
{
    decimal_digits_are_digits(n);
    decimal_digits_are_digits(m);
    if n < 10 && m < 10 {
        assert(decimal_digits(n)[0] == digit_char(n));
        assert(decimal_digits(m)[0] == digit_char(m));
    } else if n >= 10 && m >= 10 {
        let high_n = decimal_digits(n / 10);
        let high_m = decimal_digits(m / 10);
        assert(high_n =~= decimal_digits(n).drop_last());
        assert(high_m =~= decimal_digits(m).drop_last());
        assert(decimal_digits(n).last() == digit_char(n % 10));
        assert(decimal_digits(m).last() == digit_char(m % 10));
        decimal_digits_are_unique(n / 10, m / 10);
    }
}

/// The decimal text of an integer is never empty, and begins with a digit
/// or, for a negative number, with the minus sign.
pub proof fn decimal_text_begins_with_digit_or_sign(i: int)
    ensures
        decimal_text(i).len() >= 1,
        i >= 0 ==> is_digit(decimal_text(i)[0]),
        i < 0 ==> decimal_text(i)[0] == '-',
{
    if i < 0 {
        decimal_digits_are_digits((-i) as nat);
    } else {
        decimal_digits_are_digits(i as nat);
    }
}

/// Different integers have different decimal texts.
pub proof fn decimal_text_is_unique(i: int, j: int)
    requires
        decimal_text(i) == decimal_text(j),
    ensures
        i == j,
{
    decimal_text_begins_with_digit_or_sign(i);
    decimal_text_begins_with_digit_or_sign(j);
    if i < 0 && j < 0 {
        let digits_i = decimal_digits((-i) as nat);
        let digits_j = decimal_digits((-j) as nat);
        assert(digits_i =~= decimal_text(i).subrange(1, decimal_text(i).len() as int));
        assert(digits_j =~= decimal_text(j).subrange(1, decimal_text(j).len() as int));
        decimal_digits_are_unique((-i) as nat, (-j) as nat);
    } else if i >= 0 && j >= 0 {
        decimal_digits_are_unique(i as nat, j as nat);
    }
}

/// The one-character text of a decimal digit.
fn digit_str(d: u8) -> (s: &'static str)
    requires
        d < 10,
    ensures
        s@ == seq![digit_char(d as nat)],
{
    proof {
        reveal_strlit("0");
        reveal_strlit("1");
        reveal_strlit("2");
        reveal_strlit("3");
        reveal_strlit("4");
        reveal_strlit("5");
        reveal_strlit("6");
        reveal_strlit("7");
        reveal_strlit("8");
        reveal_strlit("9");
    }
    let s: &'static str = if d == 0 {
        "0"
    } else if d == 1 {
        "1"
    } else if d == 2 {
        "2"
    } else if d == 3 {
        "3"
    } else if d == 4 {
        "4"
    } else if d == 5 {
        "5"
    } else if d == 6 {
        "6"
    } else if d == 7 {
        "7"
    } else if d == 8 {
        "8"
    } else {
        "9"
    };
    assert(s@ =~= seq![digit_char(d as nat)]);
    s
}

/// Appends the decimal digits of `n` to `out`.
fn append_digits(out: &mut String, n: u128)
    ensures
        final(out)@ == old(out)@ + decimal_digits(n as nat),
    decreases n,
{
    if n >= 10 {
        append_digits(out, n / 10);
    }
    let d: u8 = (n % 10) as u8;
    out.append(digit_str(d));
    assert(final(out)@ =~= old(out)@ + decimal_digits(n as nat)) by {
        if n >= 10 {
            assert(decimal_digits(n as nat) =~= decimal_digits((n / 10) as nat) + seq![
                digit_char((n % 10) as nat),
            ]);
        }
    }
}

/// The decimal text of an unsigned number.
pub fn unsigned_to_string(n: u128) -> (s: String)
    ensures
        s@ == decimal_text(n as int),
{
    let mut out = String::new();
    append_digits(&mut out, n);
    assert(out@ =~= decimal_digits(n as nat));
    out
}

/// The decimal text of a signed number.
pub fn signed_to_string(i: i32) -> (s: String)
    ensures
        s@ == decimal_text(i as int),
{
    if i < 0 {
        let magnitude: u128 = (-(i as i64)) as u128;
        let mut out = String::from_str("-");
        proof {
            reveal_strlit("-");
        }
        append_digits(&mut out, magnitude);
        assert(out@ =~= seq!['-'] + decimal_digits((-i) as nat));
        out
    } else {
        unsigned_to_string(i as u128)
    }
}

} // verus!
