//! Decimal rendering and the `HH:MM:SS` clock face.

use vstd::prelude::*;
use vstd::string::StringExecFns;

verus! {

/// The character that stands for the decimal digit `d`.
pub open spec fn digit_char(d: int) -> char
    recommends
        0 <= d < 10,
{
    seq!['0', '1', '2', '3', '4', '5', '6', '7', '8', '9'][d]
}

/// The decimal numeral of `n`, most significant digit first, without
/// leading zeros (the numeral of zero is `"0"`).
pub open spec fn decimal(n: nat) -> Seq<char>
    decreases n,
{
    if n < 10 {
        seq![digit_char(n as int)]
    } else {
        decimal(n / 10).push(digit_char((n % 10) as int))
    }
}

/// The numeral of `n`, padded on the left with one zero where it has a
/// single digit.
pub open spec fn two_digits(n: nat) -> Seq<char> {
    if n < 10 {
        seq!['0'] + decimal(n)
    } else {
        decimal(n)
    }
}

/// The clock face for a number of seconds: hours, minutes and seconds,
/// each at least two digits wide, separated by colons.
pub open spec fn clock_face(seconds: nat) -> Seq<char> {
    two_digits(seconds / 3600) + seq![':'] + two_digits((seconds % 3600) / 60) + seq![':']
        + two_digits(seconds % 60)
}

fn digit_str(d: u32) -> (s: &'static str)
    requires
        d < 10,
    ensures
        s@ == seq![digit_char(d as int)],
{
    proof {
        reveal_strlit("0");
        reveal_strlit("1");
        reveal_strlit("2");
        reveal_strlit("3");
        reveal_strlit("4");
        reveal_strlit("5");
        reveal_strlit("6");
        reveal_strlit("7");
        reveal_strlit("8");
        reveal_strlit("9");
    }
    let s = match d {
        0 => "0",
        1 => "1",
        2 => "2",
        3 => "3",
        4 => "4",
        5 => "5",
        6 => "6",
        7 => "7",
        8 => "8",
        _ => "9",
    };
    assert(s@ =~= seq![digit_char(d as int)]);
    s
}

/// Appends the decimal numeral of `n` to `out`.
pub fn push_decimal(out: &mut String, n: u32)
    ensures
        final(out)@ == old(out)@ + decimal(n as nat),
    decreases n,
{
    if n >= 10 {
        push_decimal(out, n / 10);
    }
    out.append(digit_str(n % 10));
    assert(out@ =~= old(out)@ + decimal(n as nat));
}

/// Appends `n` as at least two digits to `out`.
pub fn push_two_digits(out: &mut String, n: u32)
    ensures
        final(out)@ == old(out)@ + two_digits(n as nat),
{
    if n < 10 {
        out.append("0");
        proof {
            reveal_strlit("0");
        }
    }
    push_decimal(out, n);
    assert(out@ =~= old(out)@ + two_digits(n as nat));
}

/// The remaining time as `HH:MM:SS`.
pub fn format_time(seconds: u32) -> (face: String)
    ensures
        face@ == clock_face(seconds as nat),
{
    let mut face = String::new();
    push_two_digits(&mut face, seconds / 3600);
    face.append(":");
    push_two_digits(&mut face, (seconds % 3600) / 60);
    face.append(":");
    push_two_digits(&mut face, seconds % 60);
    proof {
        reveal_strlit(":");
        assert(face@ =~= clock_face(seconds as nat));
    }
    face
}

/// Below a hundred hours the clock face is eight characters wide, with
/// the colons in the third and the sixth place; no face is narrower.
pub proof fn law_clock_face_width(seconds: nat)
    ensures
        clock_face(seconds).len() >= 8,
        seconds < 360000 ==> {
            &&& clock_face(seconds).len() == 8
            &&& clock_face(seconds)[2] == ':'
            &&& clock_face(seconds)[5] == ':'
        },
{
    let hours = seconds / 3600;
    let minutes = (seconds % 3600) / 60;
    lemma_two_digits_width(hours);
    lemma_two_digits_width(minutes);
    lemma_two_digits_width(seconds % 60);
}

proof fn lemma_two_digits_width(n: nat)
    ensures
        two_digits(n).len() >= 2,
        n < 100 ==> two_digits(n).len() == 2,
{
    reveal_with_fuel(decimal, 2);
    if n >= 10 {
        lemma_decimal_width(n / 10);
    }
}

proof fn lemma_decimal_width(n: nat)
    ensures
        decimal(n).len() >= 1,
    decreases n,
{
    if n >= 10 {
        lemma_decimal_width(n / 10);
    }
}

} // verus!
