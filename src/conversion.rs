use vstd::prelude::*;
use crate::ratio::{fits_i128, Ratio, Rational};

verus! {

// Each factor is written as an exact fraction `p / q`:
// 1.8 = 9/5, 2.54 = 127/50, 2.205 = 441/200, 3.6 = 18/5,
// 0.239 = 239/1000, 735.499 = 735499/1000.

/// Degrees Celsius to degrees Fahrenheit: `c * 1.8 + 32`.
pub open spec fn spec_celcius_to_fahrenheit(c: Rational) -> Rational {
    c.scale(9, 5).add_int(32)
}

/// Degrees Fahrenheit to degrees Celsius: `(f - 32) / 1.8`.
pub open spec fn spec_fahrenheit_to_celcius(f: Rational) -> Rational {
    f.add_int(-32).scale(5, 9)
}

/// US dollars to Vietnamese dong: `usd * 23000`.
pub open spec fn spec_dollar_to_vnd(usd: Rational) -> Rational {
    usd.scale(23000, 1)
}

/// Vietnamese dong to US dollars: `vnd / 23000`.
pub open spec fn spec_vnd_to_dollar(vnd: Rational) -> Rational {
    vnd.scale(1, 23000)
}

/// Inches to centimetres: `inch * 2.54`.
pub open spec fn spec_inch_to_cm(inch: Rational) -> Rational {
    inch.scale(127, 50)
}

/// Centimetres to inches: `cm / 2.54`.
pub open spec fn spec_cm_to_inch(cm: Rational) -> Rational {
    cm.scale(50, 127)
}

/// Kilograms to pounds: `kg * 2.205`.
pub open spec fn spec_kg_to_lib(kg: Rational) -> Rational {
    kg.scale(441, 200)
}

/// Pounds to kilograms: `lb / 2.205`.
pub open spec fn spec_lib_to_kb(lb: Rational) -> Rational {
    lb.scale(200, 441)
}

/// The speed named "km/h to m/s", as the formula stands: `kph * 3.6`.
pub open spec fn spec_kph_to_mps(kph: Rational) -> Rational {
    kph.scale(18, 5)
}

/// The speed named "m/s to km/h", as the formula stands: `mps / 3.6`.
pub open spec fn spec_mps_to_kph(mps: Rational) -> Rational {
    mps.scale(5, 18)
}

/// Joules to calories: `joule * 0.239`.
pub open spec fn spec_joule_to_cal(joule: Rational) -> Rational {
    joule.scale(239, 1000)
}

/// Calories to joules: `cal / 0.239`.
pub open spec fn spec_cal_to_joule(cal: Rational) -> Rational {
    cal.scale(1000, 239)
}

/// Watts to metric horsepower: `watts / 735.499`.
pub open spec fn spec_watts_to_hp(watts: Rational) -> Rational {
    watts.scale(1000, 735499)
}

/// Metric horsepower to watts: `hp * 735.499`.
pub open spec fn spec_hp_to_watts(hp: Rational) -> Rational {
    hp.scale(735499, 1000)
}

/// The stateless set of named conversions.
#[derive(Clone, Copy, Debug, Default)]
pub struct Conversion {}

impl Conversion {
    pub fn celcius_to_fahrenheit(degree: Ratio) -> (r: Ratio)
        requires
            degree.wf(),
            degree@.scale(9, 5).fits(),
            fits_i128(32 * (degree@.den * 5)),
            spec_celcius_to_fahrenheit(degree@).fits(),
        ensures
            r.wf(),
            r@ == spec_celcius_to_fahrenheit(degree@),
    {
        degree.scale(9, 5).add_integer(32)
    }

    pub fn fahrenheit_to_celcius(degree: Ratio) -> (r: Ratio)
        requires
            degree.wf(),
            fits_i128(-32 * degree@.den),
            degree@.add_int(-32).fits(),
            spec_fahrenheit_to_celcius(degree@).fits(),
        ensures
            r.wf(),
            r@ == spec_fahrenheit_to_celcius(degree@),
    {
        degree.add_integer(-32).scale(5, 9)
    }

    pub fn dollar_to_vnd(dollar: Ratio) -> (r: Ratio)
        requires
            dollar.wf(),
            spec_dollar_to_vnd(dollar@).fits(),
        ensures
            r.wf(),
            r@ == spec_dollar_to_vnd(dollar@),
    {
        dollar.scale(23000, 1)
    }

    pub fn vnd_to_dollar(vnd: Ratio) -> (r: Ratio)
        requires
            vnd.wf(),
            spec_vnd_to_dollar(vnd@).fits(),
        ensures
            r.wf(),
            r@ == spec_vnd_to_dollar(vnd@),
    {
        vnd.scale(1, 23000)
    }

    pub fn inch_to_cm(inch: Ratio) -> (r: Ratio)
        requires
            inch.wf(),
            spec_inch_to_cm(inch@).fits(),
        ensures
            r.wf(),
            r@ == spec_inch_to_cm(inch@),
    {
        inch.scale(127, 50)
    }

    pub fn cm_to_inch(cm: Ratio) -> (r: Ratio)
        requires
            cm.wf(),
            spec_cm_to_inch(cm@).fits(),
        ensures
            r.wf(),
            r@ == spec_cm_to_inch(cm@),
    {
        cm.scale(50, 127)
    }

    pub fn kg_to_lib(kg: Ratio) -> (r: Ratio)
        requires
            kg.wf(),
            spec_kg_to_lib(kg@).fits(),
        ensures
            r.wf(),
            r@ == spec_kg_to_lib(kg@),
    {
        kg.scale(441, 200)
    }

    pub fn lib_to_kb(lib: Ratio) -> (r: Ratio)
        requires
            lib.wf(),
            spec_lib_to_kb(lib@).fits(),
        ensures
            r.wf(),
            r@ == spec_lib_to_kb(lib@),
    {
        lib.scale(200, 441)
    }

    pub fn kph_to_mps(kph: Ratio) -> (r: Ratio)
        requires
            kph.wf(),
            spec_kph_to_mps(kph@).fits(),
        ensures
            r.wf(),
            r@ == spec_kph_to_mps(kph@),
    {
        kph.scale(18, 5)
    }

    pub fn mps_to_kph(mps: Ratio) -> (r: Ratio)
        requires
            mps.wf(),
            spec_mps_to_kph(mps@).fits(),
        ensures
            r.wf(),
            r@ == spec_mps_to_kph(mps@),
    {
        mps.scale(5, 18)
    }

    pub fn joule_to_cal(joule: Ratio) -> (r: Ratio)
        requires
            joule.wf(),
            spec_joule_to_cal(joule@).fits(),
        ensures
            r.wf(),
            r@ == spec_joule_to_cal(joule@),
    {
        joule.scale(239, 1000)
    }

    pub fn cal_to_joule(cal: Ratio) -> (r: Ratio)
        requires
            cal.wf(),
            spec_cal_to_joule(cal@).fits(),
        ensures
            r.wf(),
            r@ == spec_cal_to_joule(cal@),
    {
        cal.scale(1000, 239)
    }

    pub fn watts_to_hp(watts: Ratio) -> (r: Ratio)
        requires
            watts.wf(),
            spec_watts_to_hp(watts@).fits(),
        ensures
            r.wf(),
            r@ == spec_watts_to_hp(watts@),
    {
        watts.scale(1000, 735499)
    }

    pub fn hp_to_watts(hp: Ratio) -> (r: Ratio)
        requires
            hp.wf(),
            spec_hp_to_watts(hp@).fits(),
        ensures
            r.wf(),
            r@ == spec_hp_to_watts(hp@),
    {
        hp.scale(735499, 1000)
    }
}

} // verus!
