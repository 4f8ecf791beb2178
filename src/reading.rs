use vstd::prelude::*;

verus! {

/// One set of vital signs. Each measurement is kept to one decimal place,
/// as a count of tenths (37.4 °C is `374`).
pub struct HealthReading {
    pub temp_tenths: i64,
    pub pulse_tenths: i64,
    pub spo2_tenths: i64,
    pub language: String,
}

/// The decimal digit `d` as a character.
pub open spec fn digit_char(d: int) -> char {
    if d == 0 {
        '0'
    } else if d == 1 {
        '1'
    } else if d == 2 {
        '2'
    } else if d == 3 {
        '3'
    } else if d == 4 {
        '4'
    } else if d == 5 {
        '5'
    } else if d == 6 {
        '6'
    } else if d == 7 {
        '7'
    } else if d == 8 {
        '8'
    } else {
        '9'
    }
}

/// The decimal digits of `n`, most significant first, with no leading zeros.
pub open spec fn digits_of(n: nat) -> Seq<char>
    decreases n,
{
    if n < 10 {
        seq![digit_char(n as int)]
    } else {
        digits_of(n / 10).push(digit_char((n % 10) as int))
    }
}

/// A count of tenths written as a decimal number with one digit after the
/// point: `374` is "37.4", `-5` is "-0.5".
pub open spec fn one_decimal(tenths: int) -> Seq<char> {
    let m = if tenths < 0 { -tenths } else { tenths };
    let sign = if tenths < 0 { seq!['-'] } else { Seq::<char>::empty() };
    sign + digits_of((m / 10) as nat) + seq!['.', digit_char(m % 10)]
}

fn digit_str(d: u64) -> (r: &'static str)
    requires
        d < 10,
    ensures
        r@ == seq![digit_char(d as int)],
{
    proof {
        reveal_strlit("0");
        reveal_strlit("1");
        reveal_strlit("2");
        reveal_strlit("3");
        reveal_strlit("4");
        reveal_strlit("5");
        reveal_strlit("6");
        reveal_strlit("7");
        reveal_strlit("8");
        reveal_strlit("9");
    }
    let r = match d {
        0 => "0",
        1 => "1",
        2 => "2",
        3 => "3",
        4 => "4",
        5 => "5",
        6 => "6",
        7 => "7",
        8 => "8",
        _ => "9",
    };
    assert(r@ =~= seq![digit_char(d as int)]);
    r
}

fn push_digits(out: &mut String, n: u64)
    ensures
        final(out)@ == old(out)@ + digits_of(n as nat),
    decreases n,
{
    if n >= 10 {
        push_digits(out, n / 10);
    }
    out.append(digit_str(n % 10));
    assert(out@ =~= old(out)@ + digits_of(n as nat));
}

/// Writes a count of tenths with one digit after the decimal point.
pub fn format_one_decimal(tenths: i64) -> (r: String)
    ensures
        r@ == one_decimal(tenths as int),
{
    let negative = tenths < 0;
    let m: u64 = if negative {
        (-(tenths as i128)) as u64
    } else {
        tenths as u64
    };
    let mut out = String::new();
    if negative {
        proof {
            reveal_strlit("-");
        }
        out.append("-");
    }
    push_digits(&mut out, m / 10);
    proof {
        reveal_strlit(".");
    }
    out.append(".");
    out.append(digit_str(m % 10));
    assert(out@ =~= one_decimal(tenths as int));
    out
}

} // verus!
