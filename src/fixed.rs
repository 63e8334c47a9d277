//! Fixed-point lengths (ten-thousandths of an inch) and their decimal text.
use vstd::prelude::*;
use vstd::string::StringExecFns;

verus! {

/// Number of fixed-point units in one inch.
pub const UNITS_PER_INCH: i64 = 10000;

/// The character of a decimal digit.
pub open spec fn digit_char(d: nat) -> char {
    if d == 0 { '0' } else if d == 1 { '1' } else if d == 2 { '2' } else if d == 3 { '3' }
    else if d == 4 { '4' } else if d == 5 { '5' } else if d == 6 { '6' } else if d == 7 { '7' }
    else if d == 8 { '8' } else { '9' }
}

/// Decimal digits of a natural number, most significant first, no leading zeros.
pub open spec fn digits_of(n: nat) -> Seq<char>
    decreases n,
{
    if n < 10 {
        seq![digit_char(n)]
    } else {
        digits_of(n / 10).push(digit_char(n % 10))
    }
}

/// The fractional part `f` (in `0..10000`) as `.dddd` with trailing zeros dropped,
/// and nothing at all when it is zero.
pub open spec fn fraction_text(f: nat) -> Seq<char> {
    let d1 = digit_char(f / 1000);
    let d2 = digit_char((f / 100) % 10);
    let d3 = digit_char((f / 10) % 10);
    let d4 = digit_char(f % 10);
    if f == 0 {
        seq![]
    } else if f % 1000 == 0 {
        seq!['.', d1]
    } else if f % 100 == 0 {
        seq!['.', d1, d2]
    } else if f % 10 == 0 {
        seq!['.', d1, d2, d3]
    } else {
        seq!['.', d1, d2, d3, d4]
    }
}

pub open spec fn abs(v: int) -> nat {
    if v < 0 { (-v) as nat } else { v as nat }
}

/// Decimal text of a fixed-point length in inches: an optional minus sign, the
/// whole inches, then at most four fractional digits without trailing zeros
/// (`48050` is `4.805`, `-40291` is `-4.0291`, `30000` is `3`).
pub open spec fn fixed_text(v: int) -> Seq<char> {
    let sign: Seq<char> = if v < 0 { seq!['-'] } else { seq![] };
    sign + digits_of(abs(v) / 10000) + fraction_text(abs(v) % 10000)
}

fn digit_str(d: u64) -> (r: &'static str)
    requires
        d < 10,
    ensures
        r@ == seq![digit_char(d as nat)],
{
    proof {
        reveal_strlit("0");
        reveal_strlit("1");
        reveal_strlit("2");
        reveal_strlit("3");
        reveal_strlit("4");
        reveal_strlit("5");
        reveal_strlit("6");
        reveal_strlit("7");
        reveal_strlit("8");
        reveal_strlit("9");
    }
    match d {
        0 => "0",
        1 => "1",
        2 => "2",
        3 => "3",
        4 => "4",
        5 => "5",
        6 => "6",
        7 => "7",
        8 => "8",
        _ => "9",
    }
}

fn push_digit(out: &mut String, d: u64)
    requires
        d < 10,
    ensures
        final(out)@ == old(out)@.push(digit_char(d as nat)),
{
    out.append(digit_str(d));
}

fn push_digits(out: &mut String, n: u64)
    ensures
        final(out)@ == old(out)@ + digits_of(n as nat),
    decreases n,
{
    if n >= 10 {
        push_digits(out, n / 10);
        push_digit(out, n % 10);
        assert(final(out)@ =~= old(out)@ + digits_of(n as nat));
    } else {
        push_digit(out, n);
        assert(final(out)@ =~= old(out)@ + digits_of(n as nat));
    }
}

fn push_fraction(out: &mut String, f: u64)
    requires
        f < 10000,
    ensures
        final(out)@ == old(out)@ + fraction_text(f as nat),
{
    let ghost start = out@;
    if f == 0 {
        assert(out@ =~= start + fraction_text(f as nat));
        return;
    }
    out.append(".");
    proof {
        reveal_strlit(".");
    }
    push_digit(out, f / 1000);
    if f % 1000 != 0 {
        push_digit(out, (f / 100) % 10);
        if f % 100 != 0 {
            push_digit(out, (f / 10) % 10);
            if f % 10 != 0 {
                push_digit(out, f % 10);
            }
        }
    }
    assert(out@ =~= start + fraction_text(f as nat));
}

/// Appends the decimal text of the fixed-point length `v`.
pub fn push_fixed(out: &mut String, v: i64)
    ensures
        final(out)@ == old(out)@ + fixed_text(v as int),
{
    let ghost start = out@;
    let magnitude: u64 = if v < 0 {
        out.append("-");
        proof {
            reveal_strlit("-");
        }
        (-(v as i128)) as u64
    } else {
        v as u64
    };
    assert(magnitude as nat == abs(v as int));
    push_digits(out, magnitude / 10000);
    push_fraction(out, magnitude % 10000);
    assert(out@ =~= start + fixed_text(v as int));
}

/// The decimal text of the fixed-point length `v`.
pub fn format_fixed(v: i64) -> (r: String)
    ensures
        r@ == fixed_text(v as int),
{
    let mut out = String::new();
    push_fixed(&mut out, v);
    assert(out@ =~= fixed_text(v as int));
    out
}

} // verus!
