use vstd::prelude::*;
use vstd::string::StringExecFns;

verus! {

/// The decimal digit character for `d` (meaningful for `d < 10`).
pub open spec fn digit_char(d: nat) -> char {
    if d == 0 {
        '0'
    } else if d == 1 {
        '1'
    } else if d == 2 {
        '2'
    } else if d == 3 {
        '3'
    } else if d == 4 {
        '4'
    } else if d == 5 {
        '5'
    } else if d == 6 {
        '6'
    } else if d == 7 {
        '7'
    } else if d == 8 {
        '8'
    } else {
        '9'
    }
}

/// Decimal text of a natural number, without leading zeros.
pub open spec fn nat_text(n: nat) -> Seq<char>
    decreases n,
{
    if n < 10 {
        seq![digit_char(n)]
    } else {
        nat_text(n / 10) + seq![digit_char(n % 10)]
    }
}

/// Text of a reading given in tenths of a unit: the whole part, then a point
/// and the tenths digit only when that digit is not zero (`235` is `23.5`,
/// `250` is `25`, `-5` is `-0.5`).
pub open spec fn tenths_text(v: int) -> Seq<char> {
    let a: nat = if v < 0 { (-v) as nat } else { v as nat };
    let sign: Seq<char> = if v < 0 { seq!['-'] } else { Seq::empty() };
    let frac: Seq<char> = if a % 10 == 0 { Seq::empty() } else { seq!['.', digit_char(a % 10)] };
    sign + nat_text(a / 10) + frac
}

fn digit_str(d: u32) -> (r: &'static str)
    requires
        d < 10,
    ensures
        r@ == seq![digit_char(d as nat)],
{
    if d == 0 {
        proof { reveal_strlit("0"); }
        "0"
    } else if d == 1 {
        proof { reveal_strlit("1"); }
        "1"
    } else if d == 2 {
        proof { reveal_strlit("2"); }
        "2"
    } else if d == 3 {
        proof { reveal_strlit("3"); }
        "3"
    } else if d == 4 {
        proof { reveal_strlit("4"); }
        "4"
    } else if d == 5 {
        proof { reveal_strlit("5"); }
        "5"
    } else if d == 6 {
        proof { reveal_strlit("6"); }
        "6"
    } else if d == 7 {
        proof { reveal_strlit("7"); }
        "7"
    } else if d == 8 {
        proof { reveal_strlit("8"); }
        "8"
    } else {
        proof { reveal_strlit("9"); }
        "9"
    }
}

/// Appends the decimal text of `n` to `out`.
pub fn push_nat(out: &mut String, n: u32)
    ensures
        final(out)@ == old(out)@ + nat_text(n as nat),
    decreases n,
{
    if n < 10 {
        out.append(digit_str(n));
    } else {
        push_nat(out, n / 10);
        out.append(digit_str(n % 10));
        assert(final(out)@ == old(out)@ + nat_text(n as nat)) by {
            assert(nat_text(n as nat) == nat_text((n / 10) as nat) + seq![digit_char((n % 10) as nat)]);
        }
    }
}

/// Appends the text of a reading given in tenths of a unit.
pub fn push_tenths(out: &mut String, v: i32)
    ensures
        final(out)@ == old(out)@ + tenths_text(v as int),
{
    let a: u32 = if v < 0 { (-(v as i64)) as u32 } else { v as u32 };
    let ghost start = out@;
    if v < 0 {
        proof { reveal_strlit("-"); }
        out.append("-");
    }
    let ghost signed = out@;
    push_nat(out, a / 10);
    let ghost whole = out@;
    if a % 10 != 0 {
        proof { reveal_strlit("."); }
        out.append(".");
        out.append(digit_str(a % 10));
    }
    proof {
        let sign: Seq<char> = if v < 0 { seq!['-'] } else { Seq::empty() };
        assert(signed == start + sign);
        assert(out@ == start + tenths_text(v as int));
    }
}

/// Renders a reading given in tenths of a unit as decimal text with at most
/// one fractional digit.
pub fn render_tenths(v: i32) -> (r: String)
    ensures
        r@ == tenths_text(v as int),
{
    let mut out = String::new();
    push_tenths(&mut out, v);
    assert(out@ == Seq::<char>::empty() + tenths_text(v as int));
    out
}

} // verus!
