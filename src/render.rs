//! The text block drawn on the display each cycle: temperature to two decimals,
//! moisture and light in percent to one decimal, and the time as `HH:MM:SS`.
//! Values are rounded to the nearest digit, halves away from zero.
use vstd::prelude::*;
use crate::reading::{Celsius, Percent};

verus! {

/// A wall-clock time of day.
#[derive(Clone, Copy, Debug, PartialEq, Eq, Structural)]
pub struct ClockReading {
    pub hours: u8,
    pub minutes: u8,
    pub seconds: u8,
}

/// The decimal digit `d` as a character.
pub open spec fn digit_char(d: int) -> char {
    if d == 0 { '0' }
    else if d == 1 { '1' }
    else if d == 2 { '2' }
    else if d == 3 { '3' }
    else if d == 4 { '4' }
    else if d == 5 { '5' }
    else if d == 6 { '6' }
    else if d == 7 { '7' }
    else if d == 8 { '8' }
    else { '9' }
}

/// The decimal digits of `n`, without leading zeros.
pub open spec fn digits(n: nat) -> Seq<char>
    decreases n,
{
    if n < 10 {
        seq![digit_char(n as int)]
    } else {
        digits(n / 10).push(digit_char((n % 10) as int))
    }
}

/// `n` in at least two digits, with a leading zero where it has one.
pub open spec fn two_digits(n: nat) -> Seq<char> {
    if n < 10 {
        seq!['0', digit_char(n as int)]
    } else {
        digits(n)
    }
}

/// `num / den` rounded to the nearest integer, halves away from zero.
pub open spec fn round_div(num: int, den: int) -> int {
    if num >= 0 {
        (2 * num + den) / (2 * den)
    } else {
        -((2 * (-num) + den) / (2 * den))
    }
}

/// A minus sign where `v` is negative.
pub open spec fn sign_text(v: int) -> Seq<char> {
    if v < 0 { seq!['-'] } else { seq![] }
}

/// `v / 100` with two decimals.
pub open spec fn hundredths_text(v: int) -> Seq<char> {
    let m = if v < 0 { -v } else { v };
    sign_text(v) + digits((m / 100) as nat) + seq!['.', digit_char((m % 100) / 10), digit_char(m % 10)]
}

/// `v / 10` with one decimal.
pub open spec fn tenths_text(v: int) -> Seq<char> {
    let m = if v < 0 { -v } else { v };
    sign_text(v) + digits((m / 10) as nat) + seq!['.', digit_char(m % 10)]
}

/// A temperature in hundredths of a degree, rounded.
pub open spec fn temperature_hundredths(t: Celsius) -> int {
    round_div(t.ten_thousandths(), 100)
}

/// A percentage in tenths, rounded.
pub open spec fn percent_tenths(p: Percent) -> int {
    round_div(1000 * p.reading, p.divisor as int)
}

/// The complement of a percentage to one hundred, in tenths, rounded.
pub open spec fn complement_tenths(p: Percent) -> int {
    round_div(1000 * (p.divisor - p.reading), p.divisor as int)
}

/// The temperature line's value, or dashes where no temperature is known.
pub open spec fn temperature_text(t: Option<Celsius>) -> Seq<char> {
    match t {
        Some(c) => hundredths_text(temperature_hundredths(c)),
        None => seq!['-', '-', '.', '-', '-'],
    }
}

/// A percentage field, or dashes where no reading is known. `inverted` shows
/// the complement to one hundred.
pub open spec fn percent_text(p: Option<Percent>, inverted: bool) -> Seq<char> {
    match p {
        Some(q) => tenths_text(if inverted { complement_tenths(q) } else { percent_tenths(q) }),
        None => seq!['-', '-', '.', '-'],
    }
}

/// The time as `HH:MM:SS`.
pub open spec fn clock_text(c: ClockReading) -> Seq<char> {
    two_digits(c.hours as nat) + seq![':'] + two_digits(c.minutes as nat) + seq![':']
        + two_digits(c.seconds as nat)
}

/// The whole block: four lines for temperature, moisture, light and time. The
/// moisture probe reads high when dry, so moisture is shown as the complement of
/// its reading's percentage.
pub open spec fn block_text(
    temperature: Option<Celsius>,
    moisture: Option<Percent>,
    light: Option<Percent>,
    clock: ClockReading,
) -> Seq<char> {
    temperature_text(temperature) + seq!['\u{b0}', 'C', '\n']
        + seq!['M', 'o', 'i', 's', 't', ':', ' '] + percent_text(moisture, true) + seq!['%', '\n']
        + seq!['L', 'i', 'g', 'h', 't', ':', ' '] + percent_text(light, false) + seq!['%', '\n']
        + clock_text(clock)
}

/// The shown percentage follows the reading too: over one divisor, a larger
/// reading is never shown as a smaller percentage, nor as a larger moisture
/// complement.
pub proof fn shown_percent_is_monotonic(p: Percent, q: Percent)
    requires
        p.divisor == q.divisor,
        p.divisor > 0,
        p.reading <= q.reading,
    ensures
        percent_tenths(p) <= percent_tenths(q),
        complement_tenths(q) <= complement_tenths(p),
{
    let d = p.divisor as int;
    vstd::arithmetic::div_mod::lemma_div_is_ordered(
        2 * (1000 * p.reading) + d,
        2 * (1000 * q.reading) + d,
        2 * d,
    );
    let a = 1000 * (d - q.reading);
    let b = 1000 * (d - p.reading);
    if a >= 0 {
        vstd::arithmetic::div_mod::lemma_div_is_ordered(2 * a + d, 2 * b + d, 2 * d);
    } else if b >= 0 {
        vstd::arithmetic::div_mod::lemma_div_pos_is_pos(2 * b + d, 2 * d);
        vstd::arithmetic::div_mod::lemma_div_pos_is_pos(2 * (-a) + d, 2 * d);
    } else {
        vstd::arithmetic::div_mod::lemma_div_is_ordered(2 * (-b) + d, 2 * (-a) + d, 2 * d);
    }
}

/// A percentage that can be shown: over a non-zero divisor.
pub open spec fn showable(p: Option<Percent>) -> bool {
    p matches Some(q) ==> q.divisor > 0
}

fn digit(d: u64) -> (c: char)
    requires
        d < 10,
    ensures
        c == digit_char(d as int),
{
    if d == 0 { '0' }
    else if d == 1 { '1' }
    else if d == 2 { '2' }
    else if d == 3 { '3' }
    else if d == 4 { '4' }
    else if d == 5 { '5' }
    else if d == 6 { '6' }
    else if d == 7 { '7' }
    else if d == 8 { '8' }
    else { '9' }
}

fn push_digits(out: &mut Vec<char>, n: u64)
    ensures
        final(out)@ == old(out)@ + digits(n as nat),
    decreases n,
{
    if n < 10 {
        out.push(digit(n));
        assert(final(out)@ =~= old(out)@ + digits(n as nat));
    } else {
        push_digits(out, n / 10);
        out.push(digit(n % 10));
        assert(final(out)@ =~= old(out)@ + digits(n as nat));
    }
}

fn push_two_digits(out: &mut Vec<char>, n: u8)
    ensures
        final(out)@ == old(out)@ + two_digits(n as nat),
{
    if n < 10 {
        out.push('0');
        out.push(digit(n as u64));
        assert(final(out)@ =~= old(out)@ + two_digits(n as nat));
    } else {
        push_digits(out, n as u64);
    }
}

fn append(out: &mut Vec<char>, s: &[char])
    ensures
        final(out)@ == old(out)@ + s@,
{
    let mut i: usize = 0;
    while i < s.len()
        invariant
            0 <= i <= s@.len(),
            out@ == old(out)@ + s@.subrange(0, i as int),
        decreases s.len() - i,
    {
        out.push(s[i]);
        assert(s@.subrange(0, i + 1) =~= s@.subrange(0, i as int).push(s@[i as int]));
        i = i + 1;
    }
    assert(s@.subrange(0, s@.len() as int) =~= s@);
}

/// `num / den` rounded to the nearest integer, halves away from zero.
pub fn rounded_div(num: i64, den: i64) -> (r: i64)
    requires
        den > 0,
        -0x1_0000_0000_0000 <= num <= 0x1_0000_0000_0000,
        den <= 0x1_0000_0000_0000,
    ensures
        r == round_div(num as int, den as int),
{
    if num >= 0 {
        (2 * num + den) / (2 * den)
    } else {
        -((2 * (-num) + den) / (2 * den))
    }
}

fn push_sign(out: &mut Vec<char>, v: i64)
    ensures
        final(out)@ == old(out)@ + sign_text(v as int),
{
    if v < 0 {
        out.push('-');
    }
    assert(final(out)@ =~= old(out)@ + sign_text(v as int));
}

fn push_hundredths(out: &mut Vec<char>, v: i64)
    requires
        -0x1_0000_0000_0000 <= v <= 0x1_0000_0000_0000,
    ensures
        final(out)@ == old(out)@ + hundredths_text(v as int),
{
    push_sign(out, v);
    let m: u64 = if v < 0 { (-v) as u64 } else { v as u64 };
    push_digits(out, m / 100);
    out.push('.');
    out.push(digit((m % 100) / 10));
    out.push(digit(m % 10));
    assert(final(out)@ =~= old(out)@ + hundredths_text(v as int));
}

fn push_tenths(out: &mut Vec<char>, v: i64)
    requires
        -0x1_0000_0000_0000 <= v <= 0x1_0000_0000_0000,
    ensures
        final(out)@ == old(out)@ + tenths_text(v as int),
{
    push_sign(out, v);
    let m: u64 = if v < 0 { (-v) as u64 } else { v as u64 };
    push_digits(out, m / 10);
    out.push('.');
    out.push(digit(m % 10));
    assert(final(out)@ =~= old(out)@ + tenths_text(v as int));
}

fn push_percent(out: &mut Vec<char>, p: Option<Percent>, inverted: bool)
    requires
        showable(p),
    ensures
        final(out)@ == old(out)@ + percent_text(p, inverted),
{
    match p {
        Some(q) => {
            let den = q.divisor as i64;
            let num = if inverted {
                1000 * (den - q.reading as i64)
            } else {
                1000 * q.reading as i64
            };
            push_tenths(out, rounded_div(num, den));
        },
        None => {
            append(out, &['-', '-', '.', '-']);
        },
    }
}

/// The block of text for one display cycle.
pub fn render_block(
    temperature: Option<Celsius>,
    moisture: Option<Percent>,
    light: Option<Percent>,
    clock: ClockReading,
) -> (r: Vec<char>)
    requires
        showable(moisture),
        showable(light),
    ensures
        r@ == block_text(temperature, moisture, light, clock),
{
    let mut out: Vec<char> = Vec::new();
    match temperature {
        Some(c) => {
            let e4 = c.integer as i64 * 10000 + c.fraction as i64;
            push_hundredths(&mut out, rounded_div(e4, 100));
        },
        None => {
            append(&mut out, &['-', '-', '.', '-', '-']);
        },
    }
    append(&mut out, &['\u{b0}', 'C', '\n']);
    append(&mut out, &['M', 'o', 'i', 's', 't', ':', ' ']);
    push_percent(&mut out, moisture, true);
    append(&mut out, &['%', '\n']);
    append(&mut out, &['L', 'i', 'g', 'h', 't', ':', ' ']);
    push_percent(&mut out, light, false);
    append(&mut out, &['%', '\n']);
    push_two_digits(&mut out, clock.hours);
    out.push(':');
    push_two_digits(&mut out, clock.minutes);
    out.push(':');
    push_two_digits(&mut out, clock.seconds);
    assert(out@ =~= block_text(temperature, moisture, light, clock));
    out
}

} // verus!
