//! Decimal rendering of integers and of weights.

use vstd::prelude::*;
use vstd::string::StringExecFns;

verus! {

/// An optional text as a mathematical value.
pub open spec fn text_of(text: Option<String>) -> Option<Seq<char>> {
    match text {
        Some(t) => Some(t@),
        None => None,
    }
}

/// The character that stands for the digit `d`, for `0 <= d <= 9`.
pub open spec fn digit_char(d: int) -> char {
    if d == 0 {
        '0'
    } else if d == 1 {
        '1'
    } else if d == 2 {
        '2'
    } else if d == 3 {
        '3'
    } else if d == 4 {
        '4'
    } else if d == 5 {
        '5'
    } else if d == 6 {
        '6'
    } else if d == 7 {
        '7'
    } else if d == 8 {
        '8'
    } else {
        '9'
    }
}

/// The decimal digits of `n`, most significant first, without leading zeros.
pub open spec fn decimal(n: nat) -> Seq<char>
    decreases n,
{
    if n < 10 {
        seq![digit_char(n as int)]
    } else {
        decimal(n / 10).push(digit_char((n % 10) as int))
    }
}

/// The decimal text of an integer: a minus sign before the digits of a
/// negative number, nothing before the others.
pub open spec fn integer_text(n: int) -> Seq<char> {
    if n < 0 {
        seq!['-'] + decimal((-n) as nat)
    } else {
        decimal(n as nat)
    }
}

/// What follows the whole part of a number of thousandths: nothing where
/// `thousandths` is a multiple of a thousand, else a point and the digits of
/// its last three decimal places up to the last one that is not zero.
pub open spec fn fraction_text(thousandths: nat) -> Seq<char> {
    let hundreds = digit_char((thousandths / 100 % 10) as int);
    let tens = digit_char((thousandths / 10 % 10) as int);
    let ones = digit_char((thousandths % 10) as int);
    if thousandths % 1000 == 0 {
        Seq::<char>::empty()
    } else if thousandths % 100 == 0 {
        seq!['.', hundreds]
    } else if thousandths % 10 == 0 {
        seq!['.', hundreds, tens]
    } else {
        seq!['.', hundreds, tens, ones]
    }
}

/// A weight of `grams` grams in kilograms, as decimal text: the sign, the
/// whole kilograms, and the rest as far as it is not zero. So 75500 is
/// `75.5`, 75000 is `75` and -5 is `-0.005`.
pub open spec fn kilograms_text(grams: int) -> Seq<char> {
    if grams < 0 {
        seq!['-'] + decimal((-grams / 1000) as nat) + fraction_text((-grams % 1000) as nat)
    } else {
        decimal((grams / 1000) as nat) + fraction_text((grams % 1000) as nat)
    }
}

fn digit_text(d: u8) -> (t: &'static str)
    requires
        d < 10,
    ensures
        t@ == seq![digit_char(d as int)],
{
    proof {
        reveal_strlit("0");
        reveal_strlit("1");
        reveal_strlit("2");
        reveal_strlit("3");
        reveal_strlit("4");
        reveal_strlit("5");
        reveal_strlit("6");
        reveal_strlit("7");
        reveal_strlit("8");
        reveal_strlit("9");
    }
    if d == 0 {
        "0"
    } else if d == 1 {
        "1"
    } else if d == 2 {
        "2"
    } else if d == 3 {
        "3"
    } else if d == 4 {
        "4"
    } else if d == 5 {
        "5"
    } else if d == 6 {
        "6"
    } else if d == 7 {
        "7"
    } else if d == 8 {
        "8"
    } else {
        "9"
    }
}

/// Appends the decimal digits of `n` to `out`.
pub fn append_decimal(out: &mut String, n: u128)
    ensures
        final(out)@ == old(out)@ + decimal(n as nat),
    decreases n,
{
    if n >= 10 {
        append_decimal(out, n / 10);
    }
    let last: u8 = (n % 10) as u8;
    out.append(digit_text(last));
}

/// The decimal text of `n`.
pub fn integer_to_string(n: i128) -> (text: String)
    ensures
        text@ == integer_text(n as int),
{
    let mut text = String::new();
    if n < 0 {
        let magnitude: u128 = (-(n + 1)) as u128 + 1;
        text.append("-");
        proof {
            reveal_strlit("-");
        }
        append_decimal(&mut text, magnitude);
    } else {
        append_decimal(&mut text, n as u128);
    }
    text
}

fn append_fraction(out: &mut String, thousandths: u16)
    requires
        thousandths < 1000,
    ensures
        final(out)@ == old(out)@ + fraction_text(thousandths as nat),
{
    if thousandths == 0 {
        return ;
    }
    proof {
        reveal_strlit(".");
    }
    out.append(".");
    out.append(digit_text((thousandths / 100) as u8));
    if thousandths % 100 != 0 {
        out.append(digit_text((thousandths / 10 % 10) as u8));
        if thousandths % 10 != 0 {
            out.append(digit_text((thousandths % 10) as u8));
        }
    }
}

/// A weight of `grams` grams in kilograms, as decimal text.
pub fn kilograms_to_string(grams: i64) -> (text: String)
    ensures
        text@ == kilograms_text(grams as int),
{
    let mut text = String::new();
    let magnitude: u128 = if grams < 0 {
        proof {
            reveal_strlit("-");
        }
        text.append("-");
        (-(grams as i128)) as u128
    } else {
        grams as u128
    };
    append_decimal(&mut text, magnitude / 1000);
    append_fraction(&mut text, (magnitude % 1000) as u16);
    text
}

/// The digit that `c` stands for; 0 where it stands for none.
pub open spec fn digit_value(c: char) -> nat {
    if c == '1' {
        1
    } else if c == '2' {
        2
    } else if c == '3' {
        3
    } else if c == '4' {
        4
    } else if c == '5' {
        5
    } else if c == '6' {
        6
    } else if c == '7' {
        7
    } else if c == '8' {
        8
    } else if c == '9' {
        9
    } else {
        0
    }
}

/// Whether `c` is one of the ten digits.
pub open spec fn is_digit(c: char) -> bool {
    digit_char(digit_value(c) as int) == c
}

/// The number that a sequence of digits denotes, most significant first.
pub open spec fn decimal_value(digits: Seq<char>) -> nat
    decreases digits.len(),
{
    if digits.len() == 0 {
        0
    } else {
        10 * decimal_value(digits.drop_last()) + digit_value(digits.last())
    }
}

/// The decimal digits of a number are digits that denote it: there is at
/// least one, and the first is a zero only for the number zero.
pub proof fn lemma_decimal_denotes(n: nat)
    ensures
        decimal(n).len() > 0,
        forall|i: int| 0 <= i < decimal(n).len() ==> is_digit(#[trigger] decimal(n)[i]),
        decimal_value(decimal(n)) == n,
        n > 0 ==> decimal(n)[0] != '0',
    decreases n,
{
    if n < 10 {
        assert(decimal(n).drop_last() =~= Seq::<char>::empty());
        reveal_with_fuel(decimal_value, 2);
    } else {
        lemma_decimal_denotes(n / 10);
        assert(decimal(n).drop_last() =~= decimal(n / 10));
    }
}

/// Different numbers have different digits.
pub proof fn lemma_decimal_injective(a: nat, b: nat)
    requires
        decimal(a) == decimal(b),
    ensures
        a == b,
{
    lemma_decimal_denotes(a);
    lemma_decimal_denotes(b);
}

/// Different integers have different texts.
pub proof fn lemma_integer_text_injective(a: int, b: int)
    requires
        integer_text(a) == integer_text(b),
    ensures
        a == b,
{
    let x = if a < 0 {
        (-a) as nat
    } else {
        a as nat
    };
    let y = if b < 0 {
        (-b) as nat
    } else {
        b as nat
    };
    lemma_decimal_denotes(x);
    lemma_decimal_denotes(y);
    // A text begins with the sign or with a digit, so the signs agree.
    assert(!is_digit('-'));
    if a < 0 && b < 0 {
        assert(integer_text(a).drop_first() =~= decimal(x));
        assert(integer_text(b).drop_first() =~= decimal(y));
    }
}

proof fn lemma_fraction_text_injective(r: nat, s: nat)
    requires
        r < 1000,
        s < 1000,
        fraction_text(r) == fraction_text(s),
    ensures
        r == s,
{
    let f = fraction_text(r);
    let g = fraction_text(s);
    // Texts of one length have their digits in the same places.
    assert(f.len() == g.len());
    if f.len() >= 2 {
        assert(f[1] == g[1]);
        assert(r / 100 % 10 == s / 100 % 10);
    }
    if f.len() >= 3 {
        assert(f[2] == g[2]);
        assert(r / 10 % 10 == s / 10 % 10);
    }
    if f.len() >= 4 {
        assert(f[3] == g[3]);
        assert(r % 10 == s % 10);
    }
}

proof fn lemma_whole_and_fraction(q: nat, r: nat, p: nat, s: nat)
    requires
        r < 1000,
        s < 1000,
        decimal(q) + fraction_text(r) == decimal(p) + fraction_text(s),
    ensures
        q == p,
        r == s,
{
    let left = decimal(q) + fraction_text(r);
    let right = decimal(p) + fraction_text(s);
    let m = decimal(q).len() as int;
    let n = decimal(p).len() as int;
    lemma_decimal_denotes(q);
    lemma_decimal_denotes(p);
    // The whole part ends where the text ends or the point stands, and the
    // point is no digit: so the two whole parts have one length.
    assert(!is_digit('.'));
    if m < n {
        assert(right[m] == decimal(p)[m]);
        assert(left[m] == fraction_text(r)[0]);
    } else if n < m {
        assert(left[n] == decimal(q)[n]);
        assert(right[n] == fraction_text(s)[0]);
    } else {
        assert(left.subrange(0, m) =~= decimal(q));
        assert(right.subrange(0, m) =~= decimal(p));
        assert(left.subrange(m, left.len() as int) =~= fraction_text(r));
        assert(right.subrange(m, right.len() as int) =~= fraction_text(s));
        lemma_decimal_injective(q, p);
        lemma_fraction_text_injective(r, s);
    }
}

/// Different weights have different texts.
pub proof fn lemma_kilograms_text_injective(a: int, b: int)
    requires
        kilograms_text(a) == kilograms_text(b),
    ensures
        a == b,
{
    let x: int = if a < 0 {
        -a
    } else {
        a
    };
    let y: int = if b < 0 {
        -b
    } else {
        b
    };
    let unsigned_a = decimal((x / 1000) as nat) + fraction_text((x % 1000) as nat);
    let unsigned_b = decimal((y / 1000) as nat) + fraction_text((y % 1000) as nat);
    lemma_decimal_denotes((x / 1000) as nat);
    lemma_decimal_denotes((y / 1000) as nat);
    // A text begins with the sign or with a digit, so the signs agree.
    assert(!is_digit('-'));
    assert(unsigned_a[0] == decimal((x / 1000) as nat)[0]);
    assert(unsigned_b[0] == decimal((y / 1000) as nat)[0]);
    if a < 0 {
        assert(kilograms_text(a) =~= seq!['-'] + unsigned_a);
    }
    if b < 0 {
        assert(kilograms_text(b) =~= seq!['-'] + unsigned_b);
    }
    if a < 0 && b < 0 {
        assert(kilograms_text(a).drop_first() =~= unsigned_a);
        assert(kilograms_text(b).drop_first() =~= unsigned_b);
    }
    if (a < 0) == (b < 0) {
        lemma_whole_and_fraction(
            (x / 1000) as nat,
            (x % 1000) as nat,
            (y / 1000) as nat,
            (y % 1000) as nat,
        );
    }
}

} // verus!
