//! Decimal rendering of unsigned byte counts and a human-readable byte
//! formatter built on top of it.

use vstd::prelude::*;
use vstd::string::StringExecFns;

verus! {

/// The character for a single decimal digit.
pub open spec fn spec_digit(d: nat) -> char {
    if d == 0 {
        '0'
    } else if d == 1 {
        '1'
    } else if d == 2 {
        '2'
    } else if d == 3 {
        '3'
    } else if d == 4 {
        '4'
    } else if d == 5 {
        '5'
    } else if d == 6 {
        '6'
    } else if d == 7 {
        '7'
    } else if d == 8 {
        '8'
    } else {
        '9'
    }
}

/// The usual decimal notation of `n`, most significant digit first,
/// without a sign and without leading zeros (`0` is written "0").
pub open spec fn spec_udec(n: nat) -> Seq<char>
    decreases n,
{
    if n < 10 {
        seq![spec_digit(n)]
    } else {
        spec_udec(n / 10) + seq![spec_digit(n % 10)]
    }
}

fn digit_str(d: u128) -> (r: &'static str)
    requires
        d < 10,
    ensures
        r@ =~= seq![spec_digit(d as nat)],
{
    if d == 0 {
        proof {
            reveal_strlit("0");
        }
        "0"
    } else if d == 1 {
        proof {
            reveal_strlit("1");
        }
        "1"
    } else if d == 2 {
        proof {
            reveal_strlit("2");
        }
        "2"
    } else if d == 3 {
        proof {
            reveal_strlit("3");
        }
        "3"
    } else if d == 4 {
        proof {
            reveal_strlit("4");
        }
        "4"
    } else if d == 5 {
        proof {
            reveal_strlit("5");
        }
        "5"
    } else if d == 6 {
        proof {
            reveal_strlit("6");
        }
        "6"
    } else if d == 7 {
        proof {
            reveal_strlit("7");
        }
        "7"
    } else if d == 8 {
        proof {
            reveal_strlit("8");
        }
        "8"
    } else {
        proof {
            reveal_strlit("9");
        }
        "9"
    }
}

/// Appends the decimal notation of `n` to `out`.
pub fn append_decimal(out: &mut String, n: u128)
    ensures
        final(out)@ == old(out)@ + spec_udec(n as nat),
    decreases n,
{
    if n < 10 {
        out.append(digit_str(n));
    } else {
        append_decimal(out, n / 10);
        out.append(digit_str(n % 10));
        proof {
            assert(old(out)@ + (spec_udec((n / 10) as nat) + seq![spec_digit((n % 10) as nat)])
                =~= (old(out)@ + spec_udec((n / 10) as nat)) + seq![spec_digit((n % 10) as nat)]);
        }
    }
}

pub const KIB: u128 = 1024;

pub const MIB: u128 = 1024 * 1024;

pub const GIB: u128 = 1024 * 1024 * 1024;

pub const TIB: u128 = 1024 * 1024 * 1024 * 1024;

pub const PIB: u128 = 1024 * 1024 * 1024 * 1024 * 1024;

pub const EIB: u128 = 1024 * 1024 * 1024 * 1024 * 1024 * 1024;

/// `n` scaled down by `base`, written with one decimal digit: "{q}.{d}"
/// where `q = n / base` and `d` is the first decimal digit of the rest.
pub open spec fn spec_scaled(n: nat, base: nat) -> Seq<char> {
    spec_udec(n / base) + seq!['.'] + seq![spec_digit(n % base * 10 / base)]
}

/// The human-readable rendering of a byte count: plain bytes below 1024,
/// otherwise the binary-scaled value with one decimal digit and its unit.
pub open spec fn spec_byte_format(n: nat) -> Seq<char> {
    if n < KIB {
        spec_udec(n) + " B"@
    } else if n < MIB {
        spec_scaled(n, KIB as nat) + " KB"@
    } else if n < GIB {
        spec_scaled(n, MIB as nat) + " MB"@
    } else if n < TIB {
        spec_scaled(n, GIB as nat) + " GB"@
    } else if n < PIB {
        spec_scaled(n, TIB as nat) + " TB"@
    } else if n < EIB {
        spec_scaled(n, PIB as nat) + " PB"@
    } else {
        spec_scaled(n, EIB as nat) + " EB"@
    }
}

fn scaled_string(n: u128, base: u128, unit: &'static str) -> (r: String)
    requires
        1 <= base <= EIB,
    ensures
        r@ == spec_scaled(n as nat, base as nat) + unit@,
{
    let mut out = String::new();
    append_decimal(&mut out, n / base);
    proof {
        reveal_strlit(".");
    }
    out.append(".");
    let rest: u128 = n % base;
    append_decimal(&mut out, rest * 10 / base);
    out.append(unit);
    proof {
        let r = rest as int;
        let b = base as int;
        assert(r * 10 / b < 10) by (nonlinear_arith)
            requires
                0 <= r < b,
        ;
        assert(out@ =~= spec_scaled(n as nat, base as nat) + unit@);
    }
    out
}

/// Renders a byte count for people: "512 B", "1.5 KB", "2.0 MB", and so on,
/// scaling by powers of 1024 and keeping one decimal digit.
pub fn into_byte_format(n: u128) -> (r: String)
    ensures
        r@ == spec_byte_format(n as nat),
{
    if n < KIB {
        let mut out = String::new();
        append_decimal(&mut out, n);
        out.append(" B");
        proof {
            assert(out@ =~= spec_udec(n as nat) + " B"@);
        }
        out
    } else if n < MIB {
        scaled_string(n, KIB, " KB")
    } else if n < GIB {
        scaled_string(n, MIB, " MB")
    } else if n < TIB {
        scaled_string(n, GIB, " GB")
    } else if n < PIB {
        scaled_string(n, TIB, " TB")
    } else if n < EIB {
        scaled_string(n, PIB, " PB")
    } else {
        scaled_string(n, EIB, " EB")
    }
}

} // verus!
