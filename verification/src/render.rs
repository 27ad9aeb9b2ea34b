//! Rendering of a clock decomposition as the sink text
//! `"{sign}{HH}:{MM}:{SS}"`: the sign is `-` or absent, each place is padded
//! to two digits, and an hour count of one hundred or more keeps all its
//! digits.

use vstd::prelude::*;
use vstd::string::StringExecFns;

verus! {

/// The decimal digit character for a value below ten.
pub open spec fn digit_char(d: int) -> char {
    if d == 0 {
        '0'
    } else if d == 1 {
        '1'
    } else if d == 2 {
        '2'
    } else if d == 3 {
        '3'
    } else if d == 4 {
        '4'
    } else if d == 5 {
        '5'
    } else if d == 6 {
        '6'
    } else if d == 7 {
        '7'
    } else if d == 8 {
        '8'
    } else {
        '9'
    }
}

/// The decimal digits of `n`, most significant first, with no leading zero
/// except for zero itself.
pub open spec fn dec_digits(n: nat) -> Seq<char>
    decreases n,
{
    if n < 10 {
        seq![digit_char(n as int)]
    } else {
        dec_digits(n / 10).push(digit_char((n % 10) as int))
    }
}

/// The decimal digits of `n`, padded on the left with `'0'` to at least two
/// places.
pub open spec fn two_padded(n: nat) -> Seq<char> {
    if n < 10 {
        seq!['0', digit_char(n as int)]
    } else {
        dec_digits(n)
    }
}

/// The full sink text for a clock decomposition.
pub open spec fn timestamp_text(h: nat, m: nat, s: nat, negative: bool) -> Seq<char> {
    (if negative {
        seq!['-']
    } else {
        Seq::<char>::empty()
    }) + two_padded(h) + seq![':'] + two_padded(m) + seq![':'] + two_padded(s)
}

fn digit_str(d: u64) -> (r: &'static str)
    requires
        d < 10,
    ensures
        r@ == seq![digit_char(d as int)],
{
    proof {
        reveal_strlit("0");
        reveal_strlit("1");
        reveal_strlit("2");
        reveal_strlit("3");
        reveal_strlit("4");
        reveal_strlit("5");
        reveal_strlit("6");
        reveal_strlit("7");
        reveal_strlit("8");
        reveal_strlit("9");
    }
    let r = match d {
        0 => "0",
        1 => "1",
        2 => "2",
        3 => "3",
        4 => "4",
        5 => "5",
        6 => "6",
        7 => "7",
        8 => "8",
        _ => "9",
    };
    proof {
        assert(r@ =~= seq![digit_char(d as int)]);
    }
    r
}

/// Appends the decimal digits of `n` to `out`.
fn append_decimal(out: &mut String, n: u64)
    ensures
        final(out)@ == old(out)@ + dec_digits(n as nat),
    decreases n,
{
    if n < 10 {
        out.append(digit_str(n));
        proof {
            assert(out@ =~= old(out)@ + dec_digits(n as nat));
        }
    } else {
        append_decimal(out, n / 10);
        out.append(digit_str(n % 10));
        proof {
            assert(out@ =~= old(out)@ + dec_digits(n as nat));
        }
    }
}

/// Appends the decimal digits of `n`, left-padded with `'0'` to two places.
fn append_two_padded(out: &mut String, n: u64)
    ensures
        final(out)@ == old(out)@ + two_padded(n as nat),
{
    if n < 10 {
        proof {
            reveal_strlit("0");
        }
        out.append("0");
        out.append(digit_str(n));
        proof {
            assert(out@ =~= old(out)@ + two_padded(n as nat));
        }
    } else {
        append_decimal(out, n);
    }
}

/// Renders a clock decomposition as the sink text
/// `"{sign}{HH}:{MM}:{SS}"`.
pub fn render_timestamp(h: u64, m: u64, s: u64, negative: bool) -> (r: String)
    ensures
        r@ == timestamp_text(h as nat, m as nat, s as nat, negative),
{
    proof {
        reveal_strlit("-");
        reveal_strlit(":");
    }
    let mut out = String::new();
    if negative {
        out.append("-");
    }
    append_two_padded(&mut out, h);
    out.append(":");
    append_two_padded(&mut out, m);
    out.append(":");
    append_two_padded(&mut out, s);
    proof {
        assert(out@ =~= timestamp_text(h as nat, m as nat, s as nat, negative));
    }
    out
}

} // verus!
