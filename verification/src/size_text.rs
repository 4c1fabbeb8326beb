//! Byte counts as short human-readable text: `512 bytes`, `1.50 KB`, `2.00 GB`.
//!
//! The scaled forms show the count divided by a power of 1024 with two
//! decimals. The quotient is the one binary floating point would give: the
//! count is first brought to 53 significant bits, and the two decimals are
//! rounded half to even. Everything is computed on integers.

use vstd::prelude::*;

verus! {

/// Bytes in a kibibyte.
pub const KB: u64 = 1024;

/// Bytes in a mebibyte.
pub const MB: u64 = 1_048_576;

/// Bytes in a gibibyte.
pub const GB: u64 = 1_073_741_824;

/// Counts below this bound have at most 53 significant bits.
pub const EXACT_LIMIT: u128 = 9_007_199_254_740_992;

/// The character for a single decimal digit.
pub open spec fn digit_char(d: int) -> char {
    if d == 0 {
        '0'
    } else if d == 1 {
        '1'
    } else if d == 2 {
        '2'
    } else if d == 3 {
        '3'
    } else if d == 4 {
        '4'
    } else if d == 5 {
        '5'
    } else if d == 6 {
        '6'
    } else if d == 7 {
        '7'
    } else if d == 8 {
        '8'
    } else {
        '9'
    }
}

/// The decimal digits of `n`, most significant first, without leading zeros.
pub open spec fn decimal_text(n: nat) -> Seq<char>
    decreases n,
{
    if n < 10 {
        seq![digit_char(n as int)]
    } else {
        decimal_text(n / 10).push(digit_char((n % 10) as int))
    }
}

/// `n / d` rounded to the nearest integer, a tie going to the even neighbour.
pub open spec fn round_half_even(n: nat, d: nat) -> nat
    recommends
        d > 0,
{
    let q = n / d;
    let r = n % d;
    if 2 * r > d || (2 * r == d && q % 2 == 1) {
        q + 1
    } else {
        q
    }
}

/// How many low bits `n` must give up to fit in 53 significant bits.
pub open spec fn excess_bits(n: nat) -> nat
    decreases n,
{
    if n < EXACT_LIMIT {
        0
    } else {
        1 + excess_bits(n / 2)
    }
}

/// Two to the power `e`.
pub open spec fn pow2(e: nat) -> nat
    decreases e,
{
    if e == 0 {
        1
    } else {
        2 * pow2((e - 1) as nat)
    }
}

/// The number with at most 53 significant bits that is nearest to `n`, a tie
/// going to the one whose last kept bit is zero.
pub open spec fn nearest_binary(n: nat) -> nat {
    let unit = pow2(excess_bits(n));
    round_half_even(n, unit) * unit
}

/// `bytes / unit` in hundredths, rounded as the module describes.
pub open spec fn hundredths(bytes: nat, unit: nat) -> nat
    recommends
        unit > 0,
{
    round_half_even(nearest_binary(bytes) * 100, unit)
}

/// `h` hundredths as text with two decimals: `150` is `1.50`.
pub open spec fn two_decimal_text(h: nat) -> Seq<char> {
    decimal_text(h / 100).push('.').push(digit_char(((h % 100) / 10) as int)).push(
        digit_char((h % 10) as int),
    )
}

/// The text for a size of `bytes` bytes.
pub open spec fn size_text(bytes: u64) -> Seq<char> {
    if bytes >= GB {
        two_decimal_text(hundredths(bytes as nat, GB as nat)) + " GB"@
    } else if bytes >= MB {
        two_decimal_text(hundredths(bytes as nat, MB as nat)) + " MB"@
    } else if bytes >= KB {
        two_decimal_text(hundredths(bytes as nat, KB as nat)) + " KB"@
    } else {
        decimal_text(bytes as nat) + " bytes"@
    }
}

/// The one-character text of a decimal digit.
fn digit_str(d: u8) -> (s: &'static str)
    requires
        d < 10,
    ensures
        s@ == seq![digit_char(d as int)],
{
    proof {
        reveal_strlit("0");
        reveal_strlit("1");
        reveal_strlit("2");
        reveal_strlit("3");
        reveal_strlit("4");
        reveal_strlit("5");
        reveal_strlit("6");
        reveal_strlit("7");
        reveal_strlit("8");
        reveal_strlit("9");
    }
    let s: &'static str = if d == 0 {
        "0"
    } else if d == 1 {
        "1"
    } else if d == 2 {
        "2"
    } else if d == 3 {
        "3"
    } else if d == 4 {
        "4"
    } else if d == 5 {
        "5"
    } else if d == 6 {
        "6"
    } else if d == 7 {
        "7"
    } else if d == 8 {
        "8"
    } else {
        "9"
    };
    assert(s@ =~= seq![digit_char(d as int)]);
    s
}

/// Appends the decimal digits of `n` to `out`.
pub fn push_decimal(out: &mut String, n: u128)
    ensures
        final(out)@ == old(out)@ + decimal_text(n as nat),
    decreases n,
{
    if n < 10 {
        out.append(digit_str(n as u8));
    } else {
        push_decimal(out, n / 10);
        out.append(digit_str((n % 10) as u8));
        assert(final(out)@ =~= old(out)@ + decimal_text(n as nat));
    }
}

/// The decimal digits of `n`.
pub fn decimal_string(n: u128) -> (s: String)
    ensures
        s@ == decimal_text(n as nat),
{
    let mut out = String::new();
    push_decimal(&mut out, n);
    assert(out@ =~= decimal_text(n as nat));
    out
}

/// `n / d` rounded half to even.
fn rounded_quotient(n: u128, d: u128) -> (q: u128)
    requires
        d > 0,
        2 * d <= u128::MAX,
        n / d < u128::MAX,
    ensures
        q == round_half_even(n as nat, d as nat),
{
    let q: u128 = n / d;
    let r: u128 = n % d;
    if 2 * r > d || (2 * r == d && q % 2 == 1) {
        q + 1
    } else {
        q
    }
}

/// Brings `n` to 53 significant bits.
fn to_nearest_binary(n: u64) -> (m: u128)
    ensures
        m == nearest_binary(n as nat),
        m <= 0x2_0000_0000_0000_0000,
{
    let mut rest: u128 = n as u128;
    let mut unit: u128 = 1;
    let mut bits: u32 = 0;
    while rest >= EXACT_LIMIT
        invariant
            unit == pow2(bits as nat),
            1 <= unit <= 4096,
            bits <= unit,
            unit * rest <= n,
            excess_bits(n as nat) == bits + excess_bits(rest as nat),
        decreases rest,
    {
        assert(unit < 2048) by (nonlinear_arith)
            requires
                unit * rest <= 0xffff_ffff_ffff_ffff,
                rest >= 9_007_199_254_740_992,
        ;
        assert((2 * unit) * (rest / 2) <= n) by (nonlinear_arith)
            requires
                unit * rest <= n,
                unit >= 1,
        ;
        rest = rest / 2;
        unit = unit * 2;
        bits = bits + 1;
    }
    let q: u128 = rounded_quotient(n as u128, unit);
    assert(q * unit <= n + unit) by (nonlinear_arith)
        requires
            q <= n as u128 / unit + 1,
            unit >= 1,
    ;
    q * unit
}

/// `h` hundredths as text with two decimals, appended to `out`.
fn push_two_decimals(out: &mut String, h: u128)
    ensures
        final(out)@ == old(out)@ + two_decimal_text(h as nat),
{
    push_decimal(out, h / 100);
    out.append(".");
    out.append(digit_str(((h % 100) / 10) as u8));
    out.append(digit_str((h % 10) as u8));
    proof {
        reveal_strlit(".");
        assert("."@ =~= seq!['.']);
        assert(final(out)@ =~= old(out)@ + two_decimal_text(h as nat));
    }
}

/// `bytes / unit` with two decimals.
fn scaled(bytes: u64, unit: u64) -> (s: String)
    requires
        unit == KB || unit == MB || unit == GB,
    ensures
        s@ == two_decimal_text(hundredths(bytes as nat, unit as nat)),
{
    let exact: u128 = to_nearest_binary(bytes);
    let h: u128 = rounded_quotient(exact * 100, unit as u128);
    let mut out = String::new();
    push_two_decimals(&mut out, h);
    assert(out@ =~= two_decimal_text(h as nat));
    out
}

/// A size in bytes as text: below 1024 the plain count followed by
/// ` bytes`, otherwise the count in KB, MB or GB with two decimals.
pub fn format_size(bytes: u64) -> (s: String)
    ensures
        s@ == size_text(bytes),
{
    if bytes >= GB {
        scaled(bytes, GB).concat(" GB")
    } else if bytes >= MB {
        scaled(bytes, MB).concat(" MB")
    } else if bytes >= KB {
        scaled(bytes, KB).concat(" KB")
    } else {
        decimal_string(bytes as u128).concat(" bytes")
    }
}

} // verus!
