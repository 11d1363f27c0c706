use vstd::prelude::*;

verus! {

/// The character of the decimal digit `d`.
pub open spec fn digit_char(d: nat) -> char {
    if d == 0 {
        '0'
    } else if d == 1 {
        '1'
    } else if d == 2 {
        '2'
    } else if d == 3 {
        '3'
    } else if d == 4 {
        '4'
    } else if d == 5 {
        '5'
    } else if d == 6 {
        '6'
    } else if d == 7 {
        '7'
    } else if d == 8 {
        '8'
    } else {
        '9'
    }
}

/// `n` written in decimal, without leading zeros.
pub open spec fn decimal(n: nat) -> Seq<char>
    decreases n,
{
    if n < 10 {
        seq![digit_char(n)]
    } else {
        decimal(n / 10).push(digit_char(n % 10))
    }
}

/// A value given in hundredths written with one decimal place, rounded half
/// up: 9549 reads "95.5", 9500 reads "95.0".
pub open spec fn tenths_text(hundredths: nat) -> Seq<char> {
    let t = (hundredths + 5) / 10;
    decimal(t / 10).push('.').push(digit_char(t % 10))
}

/// The one-character string of the decimal digit `d`.
fn digit_str(d: u64) -> (r: &'static str)
    requires
        d < 10,
    ensures
        r@ == seq![digit_char(d as nat)],
{
    proof {
        reveal_strlit("0");
        reveal_strlit("1");
        reveal_strlit("2");
        reveal_strlit("3");
        reveal_strlit("4");
        reveal_strlit("5");
        reveal_strlit("6");
        reveal_strlit("7");
        reveal_strlit("8");
        reveal_strlit("9");
    }
    if d == 0 {
        "0"
    } else if d == 1 {
        "1"
    } else if d == 2 {
        "2"
    } else if d == 3 {
        "3"
    } else if d == 4 {
        "4"
    } else if d == 5 {
        "5"
    } else if d == 6 {
        "6"
    } else if d == 7 {
        "7"
    } else if d == 8 {
        "8"
    } else {
        "9"
    }
}

/// Appends `n` in decimal to `out`.
pub fn push_decimal(out: &mut String, n: u64)
    ensures
        final(out)@ == old(out)@ + decimal(n as nat),
    decreases n,
{
    if n >= 10 {
        push_decimal(out, n / 10);
    }
    let d = digit_str(n % 10);
    out.append(d);
    assert(final(out)@ =~= old(out)@ + decimal(n as nat));
}

/// Appends a value given in hundredths with one decimal place to `out`.
pub fn push_tenths(out: &mut String, hundredths: u64)
    ensures
        final(out)@ == old(out)@ + tenths_text(hundredths as nat),
{
    let t: u64 = hundredths / 10 + if hundredths % 10 >= 5 { 1u64 } else { 0u64 };
    assert(t == (hundredths + 5) / 10);
    push_decimal(out, t / 10);
    out.append(".");
    out.append(digit_str(t % 10));
    proof {
        reveal_strlit(".");
    }
    assert(final(out)@ =~= old(out)@ + tenths_text(hundredths as nat));
}

} // verus!
