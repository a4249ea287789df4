//! Physical quantities held as fixed-point integers.
//!
//! Every quantity keeps its dimension in its type, and a value only changes
//! dimension through a conversion that names the constant it goes through
//! ("one kelvin of interval", "one watt"). The scales are chosen so that each
//! conversion is an exact integer multiplication:
//!
//! | type                    | raw unit          |
//! |-------------------------|-------------------|
//! | `Temperature`           | millidegree Celsius |
//! | `TemperatureInterval`   | millikelvin       |
//! | `Ratio`                 | one thousandth    |
//! | `Power`                 | microwatt         |
//! | `ThermalConductance`    | milliwatt per kelvin |
use vstd::prelude::*;

verus! {

/// Raw units of `TemperatureInterval` in one kelvin.
pub const MILLIKELVIN_PER_KELVIN: i64 = 1000;

/// Raw units of `Ratio` in one whole.
pub const RATIO_PER_UNIT: i64 = 1000;

/// Raw units of `Power` in one watt.
pub const MICROWATT_PER_WATT: i64 = 1_000_000;

/// Raw units of `Power` in one kilowatt.
pub const MICROWATT_PER_KILOWATT: i64 = 1_000_000_000;

/// True when `v` can be held in an `i64`.
pub open spec fn fits_i64(v: int) -> bool {
    i64::MIN <= v <= i64::MAX
}

/// An absolute temperature, in millidegrees Celsius.
#[derive(Clone, Copy, Debug, PartialEq, Eq, Structural)]
pub struct Temperature {
    pub millidegrees_c: i64,
}

/// A temperature difference, in millikelvin.
#[derive(Clone, Copy, Debug, PartialEq, Eq, Structural)]
pub struct TemperatureInterval {
    pub millikelvin: i64,
}

/// A dimensionless ratio, in thousandths.
#[derive(Clone, Copy, Debug, PartialEq, Eq, Structural)]
pub struct Ratio {
    pub thousandths: i64,
}

/// A power, in microwatts.
#[derive(Clone, Copy, Debug, PartialEq, Eq, Structural)]
pub struct Power {
    pub microwatts: i64,
}

/// A gain from temperature interval to power, in milliwatts per kelvin.
#[derive(Clone, Copy, Debug, PartialEq, Eq, Structural)]
pub struct ThermalConductance {
    pub milliwatts_per_kelvin: i64,
}

impl Temperature {
    pub fn from_millidegrees_c(m: i64) -> (r: Temperature)
        ensures
            r.millidegrees_c == m,
    {
        Temperature { millidegrees_c: m }
    }

    /// `self - reference` as an interval; `None` when it does not fit.
    pub fn deviation_from(self, reference: Temperature) -> (r: Option<TemperatureInterval>)
        ensures
            r == (if fits_i64(self.millidegrees_c - reference.millidegrees_c) {
                Some(TemperatureInterval { millikelvin: (self.millidegrees_c - reference.millidegrees_c) as i64 })
            } else {
                None::<TemperatureInterval>
            }),
    {
        match self.millidegrees_c.checked_sub(reference.millidegrees_c) {
            Some(d) => Some(TemperatureInterval { millikelvin: d }),
            None => None,
        }
    }

    /// `self + interval`; `None` when it does not fit.
    pub fn offset_by(self, interval: TemperatureInterval) -> (r: Option<Temperature>)
        ensures
            r == (if fits_i64(self.millidegrees_c + interval.millikelvin) {
                Some(Temperature { millidegrees_c: (self.millidegrees_c + interval.millikelvin) as i64 })
            } else {
                None::<Temperature>
            }),
    {
        match self.millidegrees_c.checked_add(interval.millikelvin) {
            Some(t) => Some(Temperature { millidegrees_c: t }),
            None => None,
        }
    }
}

impl TemperatureInterval {
    pub fn from_millikelvin(m: i64) -> (r: TemperatureInterval)
        ensures
            r.millikelvin == m,
    {
        TemperatureInterval { millikelvin: m }
    }

    /// The interval divided by one kelvin of interval.
    ///
    /// One millikelvin is one thousandth of a kelvin, so the raw value is kept.
    pub fn per_kelvin(self) -> (r: Ratio)
        ensures
            r.thousandths * MILLIKELVIN_PER_KELVIN == self.millikelvin * RATIO_PER_UNIT,
            r.thousandths == self.millikelvin,
    {
        Ratio { thousandths: self.millikelvin }
    }
}

impl Ratio {
    pub fn from_thousandths(t: i64) -> (r: Ratio)
        ensures
            r.thousandths == t,
    {
        Ratio { thousandths: t }
    }

    /// The ratio multiplied by one kelvin of interval.
    pub fn times_kelvin(self) -> (r: TemperatureInterval)
        ensures
            r.millikelvin * RATIO_PER_UNIT == self.thousandths * MILLIKELVIN_PER_KELVIN,
            r.millikelvin == self.thousandths,
    {
        TemperatureInterval { millikelvin: self.thousandths }
    }

    /// The ratio multiplied by one watt; `None` when it does not fit.
    pub fn times_watt(self) -> (r: Option<Power>)
        ensures
            r == (if fits_i64(self.thousandths * (MICROWATT_PER_WATT / RATIO_PER_UNIT)) {
                Some(Power { microwatts: (self.thousandths * (MICROWATT_PER_WATT / RATIO_PER_UNIT)) as i64 })
            } else {
                None::<Power>
            }),
    {
        match self.thousandths.checked_mul(MICROWATT_PER_WATT / RATIO_PER_UNIT) {
            Some(p) => Some(Power { microwatts: p }),
            None => None,
        }
    }
}

impl Power {
    pub fn from_microwatts(m: i64) -> (r: Power)
        ensures
            r.microwatts == m,
    {
        Power { microwatts: m }
    }

    pub fn from_kilowatts(kw: i32) -> (r: Power)
        ensures
            r.microwatts == kw * MICROWATT_PER_KILOWATT,
    {
        assert(-2147483648 * 1_000_000_000 <= kw * 1_000_000_000 <= 2147483647 * 1_000_000_000)
            by (nonlinear_arith)
            requires
                -2147483648 <= kw <= 2147483647,
        ;
        Power { microwatts: kw as i64 * MICROWATT_PER_KILOWATT }
    }

    /// `self + other`; `None` when it does not fit.
    pub fn checked_add(self, other: Power) -> (r: Option<Power>)
        ensures
            r == (if fits_i64(self.microwatts + other.microwatts) {
                Some(Power { microwatts: (self.microwatts + other.microwatts) as i64 })
            } else {
                None::<Power>
            }),
    {
        match self.microwatts.checked_add(other.microwatts) {
            Some(p) => Some(Power { microwatts: p }),
            None => None,
        }
    }
}

impl ThermalConductance {
    pub fn from_milliwatts_per_kelvin(m: i64) -> (r: ThermalConductance)
        ensures
            r.milliwatts_per_kelvin == m,
    {
        ThermalConductance { milliwatts_per_kelvin: m }
    }

    /// The power that this gain gives across `interval`; `None` when it does
    /// not fit. Milliwatts per kelvin times millikelvin is microwatts.
    pub fn times_interval(self, interval: TemperatureInterval) -> (r: Option<Power>)
        ensures
            r == (if fits_i64(self.milliwatts_per_kelvin * interval.millikelvin) {
                Some(Power { microwatts: (self.milliwatts_per_kelvin * interval.millikelvin) as i64 })
            } else {
                None::<Power>
            }),
    {
        match self.milliwatts_per_kelvin.checked_mul(interval.millikelvin) {
            Some(p) => Some(Power { microwatts: p }),
            None => None,
        }
    }
}

} // verus!
