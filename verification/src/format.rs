//! Verified rendering of integers and booleans as decimal text.
//!
//! Query strings and RFC 3339 timestamps are built from these pieces, so
//! every function here pins its result down to an exact character sequence.

use vstd::prelude::*;

verus! {

/// The character for one decimal digit value.
pub open spec fn spec_digit_char(d: int) -> char {
    if d == 0 {
        '0'
    } else if d == 1 {
        '1'
    } else if d == 2 {
        '2'
    } else if d == 3 {
        '3'
    } else if d == 4 {
        '4'
    } else if d == 5 {
        '5'
    } else if d == 6 {
        '6'
    } else if d == 7 {
        '7'
    } else if d == 8 {
        '8'
    } else {
        '9'
    }
}

/// The decimal rendering of a nonnegative integer, most significant digit
/// first, with no leading zeros (a single `'0'` for zero).
pub open spec fn spec_decimal(n: nat) -> Seq<char>
    decreases n,
{
    if n < 10 {
        seq![spec_digit_char(n as int)]
    } else {
        spec_decimal(n / 10) + seq![spec_digit_char((n % 10) as int)]
    }
}

/// The decimal rendering of an integer, with a leading `'-'` when negative.
pub open spec fn spec_signed_decimal(n: int) -> Seq<char> {
    if n < 0 {
        seq!['-'] + spec_decimal((-n) as nat)
    } else {
        spec_decimal(n as nat)
    }
}

/// The rendering of a boolean, as `"true"` or `"false"`.
pub open spec fn spec_bool_text(b: bool) -> Seq<char> {
    if b {
        seq!['t', 'r', 'u', 'e']
    } else {
        seq!['f', 'a', 'l', 's', 'e']
    }
}

fn digit_str(d: u32) -> (r: &'static str)
    requires
        d < 10,
    ensures
        r@ == seq![spec_digit_char(d as int)],
{
    proof {
        reveal_strlit("0");
        reveal_strlit("1");
        reveal_strlit("2");
        reveal_strlit("3");
        reveal_strlit("4");
        reveal_strlit("5");
        reveal_strlit("6");
        reveal_strlit("7");
        reveal_strlit("8");
        reveal_strlit("9");
    }
    let r = match d {
        0 => "0",
        1 => "1",
        2 => "2",
        3 => "3",
        4 => "4",
        5 => "5",
        6 => "6",
        7 => "7",
        8 => "8",
        _ => "9",
    };
    proof {
        assert(r@ =~= seq![spec_digit_char(d as int)]);
    }
    r
}

/// Renders a `u32` in decimal, exactly as `spec_decimal` describes.
pub fn u32_to_decimal(n: u32) -> (s: String)
    ensures
        s@ == spec_decimal(n as nat),
    decreases n,
{
    if n < 10 {
        digit_str(n).to_owned()
    } else {
        let mut s = u32_to_decimal(n / 10);
        s.append(digit_str(n % 10));
        s
    }
}

/// Renders an `i32` in decimal with a sign, exactly as `spec_signed_decimal`
/// describes.
pub fn i32_to_decimal(n: i32) -> (s: String)
    ensures
        s@ == spec_signed_decimal(n as int),
{
    if n >= 0 {
        u32_to_decimal(n as u32)
    } else {
        proof {
            reveal_strlit("-");
        }
        let mut s = String::from_str("-");
        proof {
            assert(s@ =~= seq!['-']);
        }
        let magnitude = (-(n as i64)) as u32;
        let rest = u32_to_decimal(magnitude);
        s.append(rest.as_str());
        s
    }
}

/// The decimal rendering of `n`, left-padded with zeros to two characters.
pub open spec fn spec_pad2(n: nat) -> Seq<char> {
    if n < 10 {
        seq!['0'] + spec_decimal(n)
    } else {
        spec_decimal(n)
    }
}

/// The decimal rendering of `n`, left-padded with zeros to four characters.
pub open spec fn spec_pad4(n: nat) -> Seq<char> {
    if n < 10 {
        seq!['0', '0', '0'] + spec_decimal(n)
    } else if n < 100 {
        seq!['0', '0'] + spec_decimal(n)
    } else if n < 1000 {
        seq!['0'] + spec_decimal(n)
    } else {
        spec_decimal(n)
    }
}

/// Renders `n` as two decimal characters, zero-padded.
pub fn u8_to_pad2(n: u8) -> (s: String)
    requires
        n < 100,
    ensures
        s@ == spec_pad2(n as nat),
{
    proof {
        reveal_strlit("0");
    }
    if n < 10 {
        let mut s = String::from_str("0");
        proof {
            assert(s@ =~= seq!['0']);
        }
        let rest = u32_to_decimal(n as u32);
        s.append(rest.as_str());
        s
    } else {
        u32_to_decimal(n as u32)
    }
}

/// Renders `n` as four decimal characters, zero-padded.
pub fn u16_to_pad4(n: u16) -> (s: String)
    requires
        n < 10000,
    ensures
        s@ == spec_pad4(n as nat),
{
    proof {
        reveal_strlit("0");
        reveal_strlit("00");
        reveal_strlit("000");
    }
    let prefix = if n < 10 {
        "000"
    } else if n < 100 {
        "00"
    } else if n < 1000 {
        "0"
    } else {
        ""
    };
    let mut s = prefix.to_owned();
    proof {
        reveal_strlit("");
        if n < 10 {
            assert(s@ =~= seq!['0', '0', '0']);
        } else if n < 100 {
            assert(s@ =~= seq!['0', '0']);
        } else if n < 1000 {
            assert(s@ =~= seq!['0']);
        } else {
            assert(s@ =~= Seq::<char>::empty());
        }
    }
    let rest = u32_to_decimal(n as u32);
    s.append(rest.as_str());
    proof {
        assert(s@ =~= spec_pad4(n as nat));
    }
    s
}

/// Renders a boolean as `"true"` or `"false"`.
pub fn bool_to_text(b: bool) -> (s: &'static str)
    ensures
        s@ == spec_bool_text(b),
{
    proof {
        reveal_strlit("true");
        reveal_strlit("false");
    }
    let r = if b {
        "true"
    } else {
        "false"
    };
    proof {
        assert(r@ =~= spec_bool_text(b));
    }
    r
}

} // verus!
