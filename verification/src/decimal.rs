//! Decimal rendering of integers.
use vstd::prelude::*;

verus! {

/// The character that stands for a single decimal digit.
pub open spec fn digit(d: nat) -> char
    recommends
        d < 10,
{
    if d == 0 {
        '0'
    } else if d == 1 {
        '1'
    } else if d == 2 {
        '2'
    } else if d == 3 {
        '3'
    } else if d == 4 {
        '4'
    } else if d == 5 {
        '5'
    } else if d == 6 {
        '6'
    } else if d == 7 {
        '7'
    } else if d == 8 {
        '8'
    } else {
        '9'
    }
}

/// The decimal digits of a natural number, most significant first, without
/// leading zeros; zero is the single digit `0`.
pub open spec fn digits(n: nat) -> Seq<char>
    decreases n,
{
    if n < 10 {
        seq![digit(n)]
    } else {
        digits(n / 10).push(digit(n % 10))
    }
}

/// The canonical decimal text of an integer: its digits, preceded by `-`
/// exactly when it is negative.
pub open spec fn decimal(n: int) -> Seq<char> {
    if n < 0 {
        seq!['-'] + digits((-n) as nat)
    } else {
        digits(n as nat)
    }
}

/// The digit that a character stands for.
pub open spec fn digit_value(c: char) -> nat {
    if c == '1' {
        1
    } else if c == '2' {
        2
    } else if c == '3' {
        3
    } else if c == '4' {
        4
    } else if c == '5' {
        5
    } else if c == '6' {
        6
    } else if c == '7' {
        7
    } else if c == '8' {
        8
    } else if c == '9' {
        9
    } else {
        0
    }
}

/// The number that a sequence of decimal digits denotes.
pub open spec fn number(s: Seq<char>) -> nat
    decreases s.len(),
{
    if s.len() == 0 {
        0
    } else {
        number(s.drop_last()) * 10 + digit_value(s.last())
    }
}

/// The digits of a number denote that number.
pub proof fn law_digits_denote(n: nat)
    ensures
        number(digits(n)) == n,
    decreases n,
{
    if n < 10 {
        assert(digits(n).drop_last() =~= Seq::<char>::empty());
        assert(number(digits(n).drop_last()) == 0);
    } else {
        law_digits_denote(n / 10);
        assert(digits(n).drop_last() =~= digits(n / 10));
    }
}

/// The digits of a number are decimal digits, at least one, and the first
/// is `0` only for the number zero.
pub proof fn law_digits_are_canonical(n: nat)
    ensures
        digits(n).len() >= 1,
        forall|i: int| 0 <= i < digits(n).len() ==> digit(digit_value(#[trigger] digits(n)[i])) == digits(n)[i],
        digits(n)[0] == '0' <==> n == 0,
    decreases n,
{
    if n >= 10 {
        law_digits_are_canonical(n / 10);
    }
}

/// The text of an integer begins with `-` exactly when the integer is
/// negative, and the digits of its magnitude follow.
pub proof fn law_sign_only_if_negative(n: int)
    ensures
        decimal(n)[0] == '-' <==> n < 0,
        n < 0 ==> decimal(n).subrange(1, decimal(n).len() as int) == digits((-n) as nat),
        n >= 0 ==> decimal(n) == digits(n as nat),
{
    if n < 0 {
        assert(decimal(n).subrange(1, decimal(n).len() as int) =~= digits((-n) as nat));
    } else {
        law_digits_are_canonical(n as nat);
    }
}

fn digit_str(d: u64) -> (s: &'static str)
    requires
        d < 10,
    ensures
        s@ == seq![digit(d as nat)],
{
    proof {
        reveal_strlit("0");
        reveal_strlit("1");
        reveal_strlit("2");
        reveal_strlit("3");
        reveal_strlit("4");
        reveal_strlit("5");
        reveal_strlit("6");
        reveal_strlit("7");
        reveal_strlit("8");
        reveal_strlit("9");
    }
    let s = if d == 0 {
        "0"
    } else if d == 1 {
        "1"
    } else if d == 2 {
        "2"
    } else if d == 3 {
        "3"
    } else if d == 4 {
        "4"
    } else if d == 5 {
        "5"
    } else if d == 6 {
        "6"
    } else if d == 7 {
        "7"
    } else if d == 8 {
        "8"
    } else {
        "9"
    };
    assert(s@ =~= seq![digit(d as nat)]);
    s
}

/// Appends the decimal digits of `n` to `buffer`.
pub fn push_digits(buffer: &mut String, n: u64)
    ensures
        final(buffer)@ == old(buffer)@ + digits(n as nat),
    decreases n,
{
    if n >= 10 {
        push_digits(buffer, n / 10);
    }
    buffer.append(digit_str(n % 10));
    assert(buffer@ =~= old(buffer)@ + digits(n as nat));
}

/// Renders an unsigned integer in decimal.
pub fn unsigned_text(n: u64) -> (s: String)
    ensures
        s@ == decimal(n as int),
{
    let mut s = String::new();
    push_digits(&mut s, n);
    assert(s@ =~= decimal(n as int));
    s
}

/// Renders a signed integer in decimal, with a leading `-` when negative.
pub fn signed_text(n: i64) -> (s: String)
    ensures
        s@ == decimal(n as int),
{
    if n >= 0 {
        unsigned_text(n as u64)
    } else {
        let magnitude: u64 = if n == i64::MIN {
            9223372036854775808u64
        } else {
            (-n) as u64
        };
        let mut s = String::new();
        proof {
            reveal_strlit("-");
        }
        s.append("-");
        push_digits(&mut s, magnitude);
        assert(s@ =~= decimal(n as int));
        s
    }
}

} // verus!
