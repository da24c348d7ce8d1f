//! Unit conversions from what the station measures to what the services
//! expect. Every conversion of a reading is exact: nothing is rounded until
//! the value is written out.

use vstd::prelude::*;
use crate::reading::{one, Quantity, Reading};

verus! {

/// Degrees Fahrenheit for `c` degrees Celsius, both in ten-trillionths:
/// `c * 9 / 5 + 32`.
pub open spec fn celsius_to_fahrenheit_units(c: int) -> int {
    c * 9 / 5 + 32 * one()
}

/// Inches of mercury for `hpa` hectopascals, both in ten-trillionths:
/// `hpa * 0.02953`.
pub open spec fn hpa_to_inhg_units(hpa: int) -> int {
    hpa * 2_953 / 100_000
}

/// Miles per hour for `ms` metres per second, both in ten-trillionths:
/// `ms * 2.23694`.
pub open spec fn ms_to_mph_units(ms: int) -> int {
    ms * 223_694 / 100_000
}

/// Inches for `mm` millimetres, both in ten-trillionths: `mm * 0.0393701`.
pub open spec fn mm_to_inches_units(mm: int) -> int {
    mm * 393_701 / 10_000_000
}

/// A product divided by one of its factors leaves the other.
proof fn lemma_exact_quotient(x: int, q: int, d: int)
    requires
        d > 0,
        x == q * d,
    ensures
        x / d == q,
        x % d == 0,
{
    assert(x / d == q && x % d == 0) by (nonlinear_arith)
        requires
            d > 0,
            x == q * d,
    ;
}

/// What each conversion makes of `m` millionths, whether or not `m` fits a
/// reading.
proof fn lemma_conversions_of_micros(m: int)
    ensures
        (m * 10_000_000 * 9) % 5 == 0,
        celsius_to_fahrenheit_units(m * 10_000_000) == m * 18_000_000 + 32 * one(),
        hpa_to_inhg_units(m * 10_000_000) == m * 295_300,
        ms_to_mph_units(m * 10_000_000) == m * 22_369_400,
        mm_to_inches_units(m * 10_000_000) == m * 393_701,
{
    lemma_exact_quotient(m * 10_000_000 * 9, m * 18_000_000, 5);
    lemma_exact_quotient(m * 10_000_000 * 2_953, m * 295_300, 100_000);
    lemma_exact_quotient(m * 10_000_000 * 223_694, m * 22_369_400, 100_000);
    lemma_exact_quotient(m * 10_000_000 * 393_701, m * 393_701, 10_000_000);
}

/// A whole multiple of a reading is that multiple of its millionths.
proof fn lemma_multiple_of_units(k: int, a: Reading)
    ensures
        k * a.units() == (k * a@) * 10_000_000,
{
    assert(k * (a@ * 10_000_000) == (k * a@) * 10_000_000) by (nonlinear_arith);
}

/// Converts degrees Celsius to degrees Fahrenheit.
pub fn celsius_to_fahrenheit(c: Reading) -> (f: Quantity)
    ensures
        f@ == celsius_to_fahrenheit_units(c.units()),
        5 * (f@ - 32 * one()) == 9 * c.units(),
{
    proof {
        lemma_conversions_of_micros(c@);
    }
    let micros: i128 = c.micros as i128;
    Quantity { units: micros * 18_000_000 + 320_000_000_000_000 }
}

/// Converts hectopascals to inches of mercury.
pub fn hpa_to_inhg(hpa: Reading) -> (inhg: Quantity)
    ensures
        inhg@ == hpa_to_inhg_units(hpa.units()),
        100_000 * inhg@ == 2_953 * hpa.units(),
{
    proof {
        lemma_conversions_of_micros(hpa@);
    }
    let micros: i128 = hpa.micros as i128;
    Quantity { units: micros * 295_300 }
}

/// Converts metres per second to miles per hour.
pub fn ms_to_mph(ms: Reading) -> (mph: Quantity)
    ensures
        mph@ == ms_to_mph_units(ms.units()),
        100_000 * mph@ == 223_694 * ms.units(),
{
    proof {
        lemma_conversions_of_micros(ms@);
    }
    let micros: i128 = ms.micros as i128;
    Quantity { units: micros * 22_369_400 }
}

/// Converts millimetres to inches.
pub fn mm_to_inches(mm: Reading) -> (inches: Quantity)
    ensures
        inches@ == mm_to_inches_units(mm.units()),
        10_000_000 * inches@ == 393_701 * mm.units(),
{
    proof {
        lemma_conversions_of_micros(mm@);
    }
    let micros: i128 = mm.micros as i128;
    Quantity { units: micros * 393_701 }
}

/// The Fahrenheit value of a Celsius reading is `c * 9 / 5 + 32` with
/// nothing lost: five times its distance from 32 is nine times the reading.
pub proof fn lemma_celsius_to_fahrenheit_exact(c: Reading)
    ensures
        celsius_to_fahrenheit_units(c.units()) == c.units() * 9 / 5 + 32 * one(),
        (c.units() * 9) % 5 == 0,
        5 * (celsius_to_fahrenheit_units(c.units()) - 32 * one()) == 9 * c.units(),
{
    lemma_conversions_of_micros(c@);
}

/// The pressure, speed and length conversions multiply a reading by their
/// factor with nothing lost.
pub proof fn lemma_scalings_exact(r: Reading)
    ensures
        100_000 * hpa_to_inhg_units(r.units()) == 2_953 * r.units(),
        100_000 * ms_to_mph_units(r.units()) == 223_694 * r.units(),
        10_000_000 * mm_to_inches_units(r.units()) == 393_701 * r.units(),
{
    lemma_conversions_of_micros(r@);
}

/// Hectopascals to inches of mercury is linear: sums of readings go to sums
/// and whole multiples to multiples.
pub proof fn lemma_hpa_to_inhg_linear(a: Reading, b: Reading, k: int)
    ensures
        hpa_to_inhg_units(a.units() + b.units()) == hpa_to_inhg_units(a.units())
            + hpa_to_inhg_units(b.units()),
        hpa_to_inhg_units(k * a.units()) == k * hpa_to_inhg_units(a.units()),
{
    lemma_conversions_of_micros(a@);
    lemma_conversions_of_micros(b@);
    lemma_conversions_of_micros(a@ + b@);
    lemma_conversions_of_micros(k * a@);
    lemma_multiple_of_units(k, a);
    assert(k * (a@ * 295_300) == (k * a@) * 295_300) by (nonlinear_arith);
}

/// Hectopascals to inches of mercury is strictly increasing.
pub proof fn lemma_hpa_to_inhg_increasing(a: Reading, b: Reading)
    requires
        a@ < b@,
    ensures
        hpa_to_inhg_units(a.units()) < hpa_to_inhg_units(b.units()),
{
    lemma_conversions_of_micros(a@);
    lemma_conversions_of_micros(b@);
}

/// Metres per second to miles per hour is linear: sums of readings go to
/// sums and whole multiples to multiples.
pub proof fn lemma_ms_to_mph_linear(a: Reading, b: Reading, k: int)
    ensures
        ms_to_mph_units(a.units() + b.units()) == ms_to_mph_units(a.units()) + ms_to_mph_units(
            b.units(),
        ),
        ms_to_mph_units(k * a.units()) == k * ms_to_mph_units(a.units()),
{
    lemma_conversions_of_micros(a@);
    lemma_conversions_of_micros(b@);
    lemma_conversions_of_micros(a@ + b@);
    lemma_conversions_of_micros(k * a@);
    lemma_multiple_of_units(k, a);
    assert(k * (a@ * 22_369_400) == (k * a@) * 22_369_400) by (nonlinear_arith);
}

/// Metres per second to miles per hour is strictly increasing.
pub proof fn lemma_ms_to_mph_increasing(a: Reading, b: Reading)
    requires
        a@ < b@,
    ensures
        ms_to_mph_units(a.units()) < ms_to_mph_units(b.units()),
{
    lemma_conversions_of_micros(a@);
    lemma_conversions_of_micros(b@);
}

/// Millimetres to inches is linear: sums of readings go to sums and whole
/// multiples to multiples.
pub proof fn lemma_mm_to_inches_linear(a: Reading, b: Reading, k: int)
    ensures
        mm_to_inches_units(a.units() + b.units()) == mm_to_inches_units(a.units())
            + mm_to_inches_units(b.units()),
        mm_to_inches_units(k * a.units()) == k * mm_to_inches_units(a.units()),
{
    lemma_conversions_of_micros(a@);
    lemma_conversions_of_micros(b@);
    lemma_conversions_of_micros(a@ + b@);
    lemma_conversions_of_micros(k * a@);
    lemma_multiple_of_units(k, a);
    assert(k * (a@ * 393_701) == (k * a@) * 393_701) by (nonlinear_arith);
}

/// Millimetres to inches is strictly increasing.
pub proof fn lemma_mm_to_inches_increasing(a: Reading, b: Reading)
    requires
        a@ < b@,
    ensures
        mm_to_inches_units(a.units()) < mm_to_inches_units(b.units()),
{
    lemma_conversions_of_micros(a@);
    lemma_conversions_of_micros(b@);
}

} // verus!
