//! Sizes in words.

use vstd::prelude::*;
use vstd::string::*;
use crate::text::{decimal_text, digit_char, digit_str, push_decimal};

verus! {

/// The bytes in a kilobyte, megabyte, gigabyte and terabyte: binary multiples.
pub const KB: u64 = 1024;

pub const MB: u64 = 1048576;

pub const GB: u64 = 1073741824;

pub const TB: u64 = 1099511627776;

/// The distance between neighbouring double-precision numbers around `n`:
/// a double holds 53 significant bits.
pub open spec fn f64_grain(n: nat) -> nat
    decreases n,
{
    if n < 0x20_0000_0000_0000 {
        1
    } else {
        2 * f64_grain(n / 2)
    }
}

/// `numerator / denominator`, rounded to the nearest whole number; a tie
/// goes to the even neighbour.
pub open spec fn round_half_even(numerator: nat, denominator: nat) -> nat {
    let quotient = numerator / denominator;
    let rest = numerator % denominator;
    if 2 * rest > denominator || (2 * rest == denominator && quotient % 2 == 1) {
        quotient + 1
    } else {
        quotient
    }
}

/// The double-precision number nearest to `n`. Sizes are shown as doubles
/// are printed, so a size beyond 53 bits is rounded before it is scaled.
pub open spec fn nearest_f64(n: nat) -> nat {
    round_half_even(n, f64_grain(n)) * f64_grain(n)
}

/// `bytes` in units of `unit` bytes, in hundredths of a unit.
pub open spec fn hundredths(bytes: u64, unit: nat) -> nat {
    round_half_even(nearest_f64(bytes as nat) * 100, unit)
}

/// A number of hundredths written with two decimals, as in `1.50`.
pub open spec fn two_decimals(h: nat) -> Seq<char> {
    decimal_text(h / 100) + seq!['.', digit_char((h / 10) % 10), digit_char(h % 10)]
}

/// A size as it is shown: in the largest of TB, GB, MB and KB that it
/// reaches, with two decimals, or in whole bytes below one KB.
pub open spec fn human_text(bytes: u64) -> Seq<char> {
    if bytes >= TB {
        two_decimals(hundredths(bytes, TB as nat)) + " TB"@
    } else if bytes >= GB {
        two_decimals(hundredths(bytes, GB as nat)) + " GB"@
    } else if bytes >= MB {
        two_decimals(hundredths(bytes, MB as nat)) + " MB"@
    } else if bytes >= KB {
        two_decimals(hundredths(bytes, KB as nat)) + " KB"@
    } else {
        decimal_text(bytes as nat) + " B"@
    }
}

fn divide_half_even(numerator: u128, denominator: u128) -> (rounded: u128)
    requires
        0 < denominator <= 0xFFFF_FFFF_FFFF_FFFF,
        numerator <= 0xFFFF_FFFF_FFFF_FFFF_FFFF_FFFF,
    ensures
        rounded == round_half_even(numerator as nat, denominator as nat),
        rounded <= numerator / denominator + 1,
        rounded * denominator <= numerator + denominator,
{
    let quotient: u128 = numerator / denominator;
    let rest: u128 = numerator % denominator;
    proof {
        vstd::arithmetic::div_mod::lemma_fundamental_div_mod(
            numerator as int,
            denominator as int,
        );
        assert((quotient + 1) * denominator == denominator * quotient + denominator)
            by (nonlinear_arith);
    }
    if 2 * rest > denominator || (2 * rest == denominator && quotient % 2 == 1) {
        quotient + 1
    } else {
        quotient
    }
}

fn grain_of(bytes: u64) -> (grain: u64)
    ensures
        grain == f64_grain(bytes as nat),
        1 <= grain <= 4095,
{
    let mut grain: u64 = 1;
    let mut rest: u64 = bytes;
    while rest >= 0x20_0000_0000_0000
        invariant
            f64_grain(bytes as nat) == grain * f64_grain(rest as nat),
            1 <= grain,
            grain * rest <= bytes,
            grain == 1 || rest >= 0x10_0000_0000_0000,
        decreases rest,
    {
        proof {
            let inner = f64_grain((rest / 2) as nat);
            assert(f64_grain(rest as nat) == 2 * inner);
            assert(grain * (2 * inner) == (grain * 2) * inner) by (nonlinear_arith);
            assert((grain * 2) * (rest / 2) <= grain * rest) by (nonlinear_arith)
                requires
                    grain >= 1,
                    rest >= 0,
            ;
            assert(grain <= 2047) by (nonlinear_arith)
                requires
                    grain * rest <= 0xFFFF_FFFF_FFFF_FFFF,
                    rest >= 0x20_0000_0000_0000,
            ;
        }
        grain = grain * 2;
        rest = rest / 2;
    }
    proof {
        assert(f64_grain(rest as nat) == 1);
        assert(grain * 1 == grain);
        if grain != 1 {
            assert(grain <= 4095) by (nonlinear_arith)
                requires
                    grain * rest <= 0xFFFF_FFFF_FFFF_FFFF,
                    rest >= 0x10_0000_0000_0000,
            ;
        }
    }
    grain
}

fn scaled_text(bytes: u64, unit: u64, suffix: &str) -> (text: String)
    requires
        unit >= 1024,
    ensures
        text@ == two_decimals(hundredths(bytes, unit as nat)) + suffix@,
{
    let grain = grain_of(bytes);
    let steps: u128 = divide_half_even(bytes as u128, grain as u128);
    assert(steps * grain <= 0xFFFF_FFFF_FFFF_FFFF + 4095);
    let nearest: u128 = steps * (grain as u128);
    let h: u128 = divide_half_even(nearest * 100, unit as u128);
    assert(h <= 0xFFFF_FFFF_FFFF_FFFF) by (nonlinear_arith)
        requires
            h * unit <= nearest * 100 + unit,
            nearest <= 0xFFFF_FFFF_FFFF_FFFF + 4095,
            unit >= 1024,
    ;
    let mut text = String::new();
    push_decimal(&mut text, (h / 100) as u64);
    text.append(".");
    text.append(digit_str(((h / 10) % 10) as u64));
    text.append(digit_str((h % 10) as u64));
    text.append(suffix);
    proof {
        reveal_strlit(".");
        assert(text@ =~= two_decimals(h as nat) + suffix@);
    }
    text
}

/// Writes a size for the user: `1536` bytes read `1.50 KB`.
pub fn bytes_to_human(bytes: u64) -> (text: String)
    ensures
        text@ == human_text(bytes),
{
    if bytes >= TB {
        scaled_text(bytes, TB, " TB")
    } else if bytes >= GB {
        scaled_text(bytes, GB, " GB")
    } else if bytes >= MB {
        scaled_text(bytes, MB, " MB")
    } else if bytes >= KB {
        scaled_text(bytes, KB, " KB")
    } else {
        let mut text = String::new();
        push_decimal(&mut text, bytes);
        text.append(" B");
        assert(text@ =~= decimal_text(bytes as nat) + " B"@);
        text
    }
}

} // verus!
