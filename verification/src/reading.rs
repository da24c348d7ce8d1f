//! Exact decimal values for sensor readings, and their text with a fixed
//! number of decimals.

use vstd::prelude::*;
use vstd::string::*;

verus! {

/// A value reported by the station, held exactly as a count of millionths
/// of its unit of measure.
#[derive(Clone, Copy, Debug, PartialEq, Eq, Structural)]
pub struct Reading {
    pub micros: i64,
}

impl View for Reading {
    type V = int;

    /// The reading as a count of millionths.
    open spec fn view(&self) -> int {
        self.micros as int
    }
}

/// A value derived from a reading, held exactly as a count of
/// ten-trillionths (1e-13) of its unit of measure. The unit is fine enough
/// that every conversion of a reading is exact.
#[derive(Clone, Copy, Debug, PartialEq, Eq, Structural)]
pub struct Quantity {
    pub units: i128,
}

impl View for Quantity {
    type V = int;

    /// The quantity as a count of ten-trillionths.
    open spec fn view(&self) -> int {
        self.units as int
    }
}

/// How many ten-trillionths make one whole.
pub open spec fn one() -> int {
    10_000_000_000_000
}

impl Reading {
    /// The reading as a count of ten-trillionths.
    pub open spec fn units(self) -> int {
        self.micros * 10_000_000
    }

    /// The reading that stands for `micros` millionths.
    pub fn from_micros(micros: i64) -> (r: Reading)
        ensures
            r@ == micros,
    {
        Reading { micros }
    }

    /// The reading as a count of millionths.
    pub fn micros(&self) -> (m: i64)
        ensures
            m == self@,
    {
        self.micros
    }

    /// The same value as a quantity.
    pub fn quantity(&self) -> (q: Quantity)
        ensures
            q@ == self.units(),
    {
        let micros: i128 = self.micros as i128;
        Quantity { units: micros * 10_000_000 }
    }
}

impl Quantity {
    /// The quantity that stands for `units` ten-trillionths.
    pub fn from_units(units: i128) -> (q: Quantity)
        ensures
            q@ == units,
    {
        Quantity { units }
    }

    /// The quantity as a count of ten-trillionths.
    pub fn units(&self) -> (u: i128)
        ensures
            u == self@,
    {
        self.units
    }
}

/// The number of decimals a value is written with.
#[derive(Clone, Copy, Debug, PartialEq, Eq, Structural)]
pub enum Precision {
    /// No decimals, and no decimal point.
    Whole,
    /// One decimal.
    Tenths,
    /// Two decimals.
    Hundredths,
    /// Three decimals.
    Thousandths,
}

impl Precision {
    /// The number of digits after the decimal point.
    pub open spec fn decimals(self) -> nat {
        match self {
            Precision::Whole => 0,
            Precision::Tenths => 1,
            Precision::Hundredths => 2,
            Precision::Thousandths => 3,
        }
    }

    /// Ten to the power `decimals()`: how many of the last written digit
    /// make one whole.
    pub open spec fn scale(self) -> nat {
        match self {
            Precision::Whole => 1,
            Precision::Tenths => 10,
            Precision::Hundredths => 100,
            Precision::Thousandths => 1_000,
        }
    }

    /// How many ten-trillionths make one of the last written digit.
    pub open spec fn step(self) -> nat {
        match self {
            Precision::Whole => 10_000_000_000_000,
            Precision::Tenths => 1_000_000_000_000,
            Precision::Hundredths => 100_000_000_000,
            Precision::Thousandths => 10_000_000_000,
        }
    }

    fn exec_decimals(self) -> (d: u8)
        ensures
            d == self.decimals(),
    {
        match self {
            Precision::Whole => 0,
            Precision::Tenths => 1,
            Precision::Hundredths => 2,
            Precision::Thousandths => 3,
        }
    }

    fn exec_scale(self) -> (s: u128)
        ensures
            s == self.scale(),
    {
        match self {
            Precision::Whole => 1,
            Precision::Tenths => 10,
            Precision::Hundredths => 100,
            Precision::Thousandths => 1_000,
        }
    }

    fn exec_step(self) -> (s: u128)
        ensures
            s == self.step(),
    {
        match self {
            Precision::Whole => 10_000_000_000_000,
            Precision::Tenths => 1_000_000_000_000,
            Precision::Hundredths => 100_000_000_000,
            Precision::Thousandths => 10_000_000_000,
        }
    }
}

/// The character that writes the digit `d`.
pub open spec fn digit_char(d: nat) -> char {
    if d == 0 {
        '0'
    } else if d == 1 {
        '1'
    } else if d == 2 {
        '2'
    } else if d == 3 {
        '3'
    } else if d == 4 {
        '4'
    } else if d == 5 {
        '5'
    } else if d == 6 {
        '6'
    } else if d == 7 {
        '7'
    } else if d == 8 {
        '8'
    } else {
        '9'
    }
}

/// The decimal digits of `n`, most significant first, without leading zeros.
pub open spec fn decimal_digits(n: nat) -> Seq<char>
    decreases n,
{
    if n < 10 {
        seq![digit_char(n)]
    } else {
        decimal_digits(n / 10).push(digit_char(n % 10))
    }
}

/// The last `width` decimal digits of `n`, most significant first, with
/// leading zeros.
pub open spec fn padded_digits(n: nat, width: nat) -> Seq<char>
    decreases width,
{
    if width == 0 {
        Seq::empty()
    } else {
        padded_digits(n / 10, (width - 1) as nat).push(digit_char(n % 10))
    }
}

/// `n / step` rounded to the nearest integer; a value exactly halfway
/// between two integers goes to the even one.
pub open spec fn round_half_even(n: nat, step: nat) -> nat {
    let q = n / step;
    let r = n % step;
    if 2 * r > step || (2 * r == step && q % 2 == 1) {
        q + 1
    } else {
        q
    }
}

/// The absolute value of `x`.
pub open spec fn magnitude(x: int) -> nat {
    if x < 0 {
        (-x) as nat
    } else {
        x as nat
    }
}

/// The text of the quantity `units` (in ten-trillionths) at precision `p`:
/// a minus sign if the quantity is below zero, the whole part, and, unless
/// the precision is `Whole`, a point and exactly `p.decimals()` digits. The
/// last digit is rounded half to even.
pub open spec fn fixed_text(units: int, p: Precision) -> Seq<char> {
    let q = round_half_even(magnitude(units), p.step());
    let sign = if units < 0 {
        seq!['-']
    } else {
        Seq::empty()
    };
    let fraction = if p.decimals() == 0 {
        Seq::empty()
    } else {
        seq!['.'] + padded_digits(q % p.scale(), p.decimals())
    };
    sign + decimal_digits(q / p.scale()) + fraction
}

fn digit_str(d: u8) -> (s: &'static str)
    requires
        d < 10,
    ensures
        s@ == seq![digit_char(d as nat)],
{
    proof {
        reveal_strlit("0");
        reveal_strlit("1");
        reveal_strlit("2");
        reveal_strlit("3");
        reveal_strlit("4");
        reveal_strlit("5");
        reveal_strlit("6");
        reveal_strlit("7");
        reveal_strlit("8");
        reveal_strlit("9");
    }
    let s = match d {
        0 => "0",
        1 => "1",
        2 => "2",
        3 => "3",
        4 => "4",
        5 => "5",
        6 => "6",
        7 => "7",
        8 => "8",
        _ => "9",
    };
    assert(s@ =~= seq![digit_char(d as nat)]);
    s
}

fn push_digits(s: &mut String, n: u128)
    ensures
        final(s)@ == old(s)@ + decimal_digits(n as nat),
    decreases n,
{
    if n >= 10 {
        push_digits(s, n / 10);
    }
    let d: u8 = (n % 10) as u8;
    s.append(digit_str(d));
    assert(s@ =~= old(s)@ + decimal_digits(n as nat));
}

fn push_padded(s: &mut String, n: u128, width: u8)
    ensures
        final(s)@ == old(s)@ + padded_digits(n as nat, width as nat),
    decreases width,
{
    if width > 0 {
        push_padded(s, n / 10, width - 1);
        let d: u8 = (n % 10) as u8;
        s.append(digit_str(d));
    }
    assert(s@ =~= old(s)@ + padded_digits(n as nat, width as nat));
}

impl Quantity {
    /// The text of the quantity at precision `p`.
    pub fn to_fixed(&self, p: Precision) -> (s: String)
        ensures
            s@ == fixed_text(self@, p),
    {
        let units: i128 = self.units;
        let mag: u128 = if units >= 0 {
            units as u128
        } else {
            (-(units + 1)) as u128 + 1
        };
        assert(mag == magnitude(units as int));
        let step: u128 = p.exec_step();
        let scale: u128 = p.exec_scale();
        let floor: u128 = mag / step;
        let rest: u128 = mag % step;
        let q: u128 = if 2 * rest > step || (2 * rest == step && floor % 2 == 1) {
            floor + 1
        } else {
            floor
        };
        assert(q == round_half_even(magnitude(units as int), p.step()));
        let mut s = String::new();
        if units < 0 {
            proof {
                reveal_strlit("-");
            }
            s.append("-");
        }
        let ghost sign = s@;
        assert(sign =~= if units < 0 { seq!['-'] } else { Seq::<char>::empty() });
        push_digits(&mut s, q / scale);
        let decimals: u8 = p.exec_decimals();
        if decimals > 0 {
            proof {
                reveal_strlit(".");
            }
            s.append(".");
            push_padded(&mut s, q % scale, decimals);
        }
        assert(s@ =~= fixed_text(units as int, p));
        s
    }
}

} // verus!
