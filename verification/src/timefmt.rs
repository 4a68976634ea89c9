//! Zero-padded decimal timestamps of the form `YYYY-MM-DD_HH-MM-SS`.

use vstd::prelude::*;

verus! {

/// The character for one decimal digit.
pub open spec fn digit_char(d: nat) -> char {
    if d == 0 {
        '0'
    } else if d == 1 {
        '1'
    } else if d == 2 {
        '2'
    } else if d == 3 {
        '3'
    } else if d == 4 {
        '4'
    } else if d == 5 {
        '5'
    } else if d == 6 {
        '6'
    } else if d == 7 {
        '7'
    } else if d == 8 {
        '8'
    } else {
        '9'
    }
}

/// The decimal representation of `n`, most significant digit first.
pub open spec fn dec_rep(n: nat) -> Seq<char>
    decreases n,
{
    if n < 10 {
        seq![digit_char(n)]
    } else {
        dec_rep(n / 10) + seq![digit_char(n % 10)]
    }
}

/// `n` in decimal, zero-padded on the left to at least two characters.
pub open spec fn pad2(n: nat) -> Seq<char> {
    if n < 10 {
        "0"@ + dec_rep(n)
    } else {
        dec_rep(n)
    }
}

/// `n` in decimal, zero-padded on the left to at least four characters.
pub open spec fn pad4(n: nat) -> Seq<char> {
    if n < 10 {
        "000"@ + dec_rep(n)
    } else if n < 100 {
        "00"@ + dec_rep(n)
    } else if n < 1000 {
        "0"@ + dec_rep(n)
    } else {
        dec_rep(n)
    }
}

/// A timestamp `YYYY-MM-DD_HH-MM-SS`: every component zero-padded, the year
/// to four characters, the rest to two.
pub open spec fn timestamp_chars(y: nat, mo: nat, d: nat, h: nat, mi: nat, s: nat) -> Seq<char> {
    pad4(y) + "-"@ + pad2(mo) + "-"@ + pad2(d) + "_"@ + pad2(h) + "-"@ + pad2(mi) + "-"@ + pad2(
        s,
    )
}

fn digit_str(d: u8) -> (r: &'static str)
    requires
        d < 10,
    ensures
        r@ == seq![digit_char(d as nat)],
{
    let r: &'static str = match d {
        0 => "0",
        1 => "1",
        2 => "2",
        3 => "3",
        4 => "4",
        5 => "5",
        6 => "6",
        7 => "7",
        8 => "8",
        _ => "9",
    };
    proof {
        reveal_strlit("0");
        reveal_strlit("1");
        reveal_strlit("2");
        reveal_strlit("3");
        reveal_strlit("4");
        reveal_strlit("5");
        reveal_strlit("6");
        reveal_strlit("7");
        reveal_strlit("8");
        reveal_strlit("9");
        assert(r@ =~= seq![digit_char(d as nat)]);
    }
    r
}

/// Append the decimal representation of `n` to `s`.
pub fn append_dec(s: &mut String, n: u32)
    ensures
        final(s)@ == old(s)@ + dec_rep(n as nat),
    decreases n,
{
    if n < 10 {
        s.append(digit_str(n as u8));
    } else {
        append_dec(s, n / 10);
        s.append(digit_str((n % 10) as u8));
    }
    proof {
        assert(s@ =~= old(s)@ + dec_rep(n as nat));
    }
}

/// Append `n` zero-padded to at least two characters.
pub fn append_pad2(s: &mut String, n: u8)
    ensures
        final(s)@ == old(s)@ + pad2(n as nat),
{
    if n < 10 {
        s.append("0");
    }
    append_dec(s, n as u32);
    proof {
        assert(s@ =~= old(s)@ + pad2(n as nat));
    }
}

/// Append `n` zero-padded to at least four characters.
pub fn append_pad4(s: &mut String, n: u32)
    ensures
        final(s)@ == old(s)@ + pad4(n as nat),
{
    if n < 10 {
        s.append("000");
    } else if n < 100 {
        s.append("00");
    } else if n < 1000 {
        s.append("0");
    }
    append_dec(s, n);
    proof {
        assert(s@ =~= old(s)@ + pad4(n as nat));
    }
}

/// Format a wall-clock instant as `YYYY-MM-DD_HH-MM-SS`.
pub fn format_timestamp(y: u32, mo: u8, d: u8, h: u8, mi: u8, s: u8) -> (r: String)
    ensures
        r@ == timestamp_chars(y as nat, mo as nat, d as nat, h as nat, mi as nat, s as nat),
{
    let mut out = String::new();
    append_pad4(&mut out, y);
    out.append("-");
    append_pad2(&mut out, mo);
    out.append("-");
    append_pad2(&mut out, d);
    out.append("_");
    append_pad2(&mut out, h);
    out.append("-");
    append_pad2(&mut out, mi);
    out.append("-");
    append_pad2(&mut out, s);
    proof {
        assert(out@ =~= timestamp_chars(
            y as nat,
            mo as nat,
            d as nat,
            h as nat,
            mi as nat,
            s as nat,
        ));
    }
    out
}

} // verus!
