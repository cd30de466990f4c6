//! Sensor readings and their exact decoding.
use vstd::prelude::*;

verus! {

/// Integer part of a raw DS18B20 sample (sixteenths of a degree, two's complement),
/// truncated toward zero.
pub open spec fn integer_part(raw: u16) -> int {
    if raw < 0x8000 {
        raw as int / 16
    } else {
        -((0x10000 - raw as int) / 16)
    }
}

/// Fractional part of a raw sample, in ten-thousandths of a degree, with the sign
/// of the sample.
pub open spec fn fractional_part(raw: u16) -> int {
    if raw < 0x8000 {
        (raw as int % 16) * 625
    } else {
        -(((0x10000 - raw as int) % 16) * 625)
    }
}

/// The raw sample read as a signed 16-bit count of sixteenths of a degree.
pub open spec fn signed_sixteenths(raw: u16) -> int {
    if raw < 0x8000 {
        raw as int
    } else {
        raw as int - 0x10000
    }
}

/// Relies on onewire::ds18b20::split_temp: the integer part and the fraction in
/// ten-thousandths of a raw sample. It negates the sample as an `i16`, which
/// overflows on 0x8000.
#[verifier::external_body]
fn split_temp(raw: u16) -> (r: (i16, i16))
    requires
        raw != 0x8000,
    ensures
        r.0 as int == integer_part(raw),
        r.1 as int == fractional_part(raw),
{
    onewire::ds18b20::split_temp(raw)
}

/// A temperature in degrees Celsius, as `integer + fraction / 10000`; both parts
/// carry the sign of the value.
#[derive(Clone, Copy, Debug, PartialEq, Eq, Structural)]
pub struct Celsius {
    pub integer: i16,
    pub fraction: i16,
}

impl Celsius {
    /// The value in ten-thousandths of a degree.
    pub open spec fn ten_thousandths(self) -> int {
        self.integer as int * 10000 + self.fraction as int
    }
}

/// Decodes a raw DS18B20 sample into degrees Celsius.
pub fn temp_from_raw(raw: u16) -> (r: Celsius)
    requires
        raw != 0x8000,
    ensures
        r.integer as int == integer_part(raw),
        r.fraction as int == fractional_part(raw),
        r.ten_thousandths() == signed_sixteenths(raw) * 625,
{
    let (integer, fraction) = split_temp(raw);
    Celsius { integer, fraction }
}

/// `temp_from_raw` splits a sample into an integer part and a fraction in
/// ten-thousandths, and the two together give back the sample's value:
/// `integer + fraction / 10000` degrees, that is, the sample in sixteenths of a degree.
pub proof fn temp_from_raw_is_integer_plus_fraction(raw: u16)
    requires
        raw != 0x8000,
    ensures
        integer_part(raw) * 10000 + fractional_part(raw) == signed_sixteenths(raw) * 625,
{
}

/// A reading of an analog-to-digital converter as a fraction of full scale, in
/// percent: `100 * reading / divisor`. The divisor is `2^n - 1` for an `n`-bit
/// converter, so that the largest code reads as exactly 100 percent.
#[derive(Clone, Copy, Debug, PartialEq, Eq, Structural)]
pub struct Percent {
    pub reading: u16,
    pub divisor: u32,
}

/// The largest code of an `n`-bit converter, which is the full-scale divisor.
pub open spec fn full_scale(resolution: nat) -> int {
    vstd::arithmetic::power2::pow2(resolution) as int - 1
}

impl Percent {
    /// `self` is at most `other`, compared as exact fractions.
    pub open spec fn le(self, other: Percent) -> bool {
        self.reading as int * other.divisor as int <= other.reading as int * self.divisor as int
    }

    /// `self` is zero percent.
    pub open spec fn is_zero(self) -> bool {
        self.reading == 0
    }

    /// `self` is exactly one hundred percent.
    pub open spec fn is_full(self) -> bool {
        self.divisor > 0 && self.reading as int == self.divisor as int
    }
}

/// The percentage that `reading` stands for on a converter of `resolution` bits.
pub open spec fn percent_of(resolution: nat, reading: u16) -> Percent {
    Percent { reading, divisor: full_scale(resolution) as u32 }
}

/// The percentage of full scale that `reading` stands for on a converter of
/// `resolution` bits, over the divisor `2^resolution - 1`. A converter of zero
/// bits gives a zero divisor, over which no percentage is defined.
pub fn percent_from_adc_reading(resolution: u32, reading: u16) -> (r: Percent)
    requires
        resolution < 31,
    ensures
        r == percent_of(resolution as nat, reading),
        r.divisor as int == full_scale(resolution as nat),
{
    let mut power: u32 = 1;
    let mut i: u32 = 0;
    proof {
        vstd::arithmetic::power2::lemma2_to64();
    }
    while i < resolution
        invariant
            i <= resolution < 31,
            power as int == vstd::arithmetic::power2::pow2(i as nat),
        decreases resolution - i,
    {
        proof {
            vstd::arithmetic::power2::lemma_pow2_unfold((i + 1) as nat);
            vstd::arithmetic::power2::lemma_pow2_strictly_increases((i + 1) as nat, 31);
            vstd::arithmetic::power2::lemma2_to64();
        }
        power = power * 2;
        i = i + 1;
    }
    proof {
        vstd::arithmetic::power2::lemma_pow2_pos(resolution as nat);
    }
    Percent { reading, divisor: power - 1 }
}

/// On a converter of at least one bit, a larger reading never gives a smaller
/// percentage, a reading of zero is zero percent, and the largest code is
/// exactly one hundred percent.
pub proof fn percent_is_monotonic(resolution: nat, a: u16, b: u16)
    requires
        1 <= resolution < 31,
        a <= b,
    ensures
        percent_of(resolution, a).le(percent_of(resolution, b)),
        percent_of(resolution, 0).is_zero(),
        full_scale(resolution) <= u16::MAX ==> percent_of(resolution, full_scale(resolution) as u16).is_full(),
{
    vstd::arithmetic::power2::lemma_pow2_strictly_increases(0, resolution);
    vstd::arithmetic::power2::lemma_pow2_strictly_increases(resolution, 31);
    vstd::arithmetic::power2::lemma2_to64();
    let d = full_scale(resolution);
    assert(a as int * d <= b as int * d) by (nonlinear_arith)
        requires
            a <= b,
            d >= 0,
    ;
}

} // verus!
