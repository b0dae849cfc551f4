//! Decimal rendering of identifiers and server numbers, and the store table
//! names derived from the configured target server.

use vstd::prelude::*;

verus! {

/// The decimal digit character for one digit value.
pub open spec fn digit_char(d: nat) -> char {
    if d == 0 {
        '0'
    } else if d == 1 {
        '1'
    } else if d == 2 {
        '2'
    } else if d == 3 {
        '3'
    } else if d == 4 {
        '4'
    } else if d == 5 {
        '5'
    } else if d == 6 {
        '6'
    } else if d == 7 {
        '7'
    } else if d == 8 {
        '8'
    } else {
        '9'
    }
}

/// The decimal representation of a natural number, most significant digit
/// first, with no leading zeroes (zero itself is "0").
pub open spec fn dec_rep(n: nat) -> Seq<char>
    decreases n,
{
    if n < 10 {
        seq![digit_char(n)]
    } else {
        dec_rep(n / 10).push(digit_char(n % 10))
    }
}

/// The decimal representation of an integer: a leading minus sign for
/// negative values, then the magnitude's digits.
pub open spec fn dec_rep_signed(v: int) -> Seq<char> {
    if v >= 0 {
        dec_rep(v as nat)
    } else {
        seq!['-'] + dec_rep((-v) as nat)
    }
}

/// The one-character string for a digit value.
fn digit_str(d: u64) -> (r: &'static str)
    requires
        d < 10,
    ensures
        r@ == seq![digit_char(d as nat)],
{
    let r: &'static str = if d == 0 {
        "0"
    } else if d == 1 {
        "1"
    } else if d == 2 {
        "2"
    } else if d == 3 {
        "3"
    } else if d == 4 {
        "4"
    } else if d == 5 {
        "5"
    } else if d == 6 {
        "6"
    } else if d == 7 {
        "7"
    } else if d == 8 {
        "8"
    } else {
        "9"
    };
    proof {
        reveal_strlit("0");
        reveal_strlit("1");
        reveal_strlit("2");
        reveal_strlit("3");
        reveal_strlit("4");
        reveal_strlit("5");
        reveal_strlit("6");
        reveal_strlit("7");
        reveal_strlit("8");
        reveal_strlit("9");
        assert(r@ =~= seq![digit_char(d as nat)]);
    }
    r
}

/// Renders an unsigned number in decimal.
pub fn u64_to_decimal(n: u64) -> (r: String)
    ensures
        r@ == dec_rep(n as nat),
    decreases n,
{
    if n < 10 {
        let s = digit_str(n).to_owned();
        proof {
            assert(s@ =~= dec_rep(n as nat));
        }
        s
    } else {
        assert(n / 10 < n && n / 10 >= 1);
        let mut s = u64_to_decimal(n / 10);
        s.append(digit_str(n % 10));
        proof {
            assert(s@ =~= dec_rep(n as nat));
        }
        s
    }
}

/// Renders a signed number in decimal.
pub fn i64_to_decimal(v: i64) -> (r: String)
    ensures
        r@ == dec_rep_signed(v as int),
{
    if v >= 0 {
        u64_to_decimal(v as u64)
    } else {
        let mag: u64 = (-(v as i128)) as u64;
        assert(mag == -(v as int));
        let mut s = "-".to_owned();
        proof {
            reveal_strlit("-");
        }
        let digits = u64_to_decimal(mag);
        s.append(digits.as_str());
        proof {
            assert(s@ =~= dec_rep_signed(v as int));
        }
        s
    }
}

/// The clan table of the configured target server, `clan_sv` followed by the
/// server number.
pub fn clan_table_name(server: u8) -> (r: String)
    ensures
        r@ == "clan_sv"@ + dec_rep(server as nat),
{
    let mut s = "clan_sv".to_owned();
    s.append(u64_to_decimal(server as u64).as_str());
    s
}

/// The clan-reference column of player rows for the configured target
/// server, `clan_id_sv` followed by the server number.
pub fn clan_column_name(server: u8) -> (r: String)
    ensures
        r@ == "clan_id_sv"@ + dec_rep(server as nat),
{
    let mut s = "clan_id_sv".to_owned();
    s.append(u64_to_decimal(server as u64).as_str());
    s
}

} // verus!
