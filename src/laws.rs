use vstd::prelude::*;
use crate::conversion::{
    spec_cal_to_joule,
    spec_celcius_to_fahrenheit,
    spec_cm_to_inch,
    spec_dollar_to_vnd,
    spec_fahrenheit_to_celcius,
    spec_hp_to_watts,
    spec_inch_to_cm,
    spec_joule_to_cal,
    spec_kg_to_lib,
    spec_kph_to_mps,
    spec_lib_to_kb,
    spec_mps_to_kph,
    spec_vnd_to_dollar,
    spec_watts_to_hp,
};
use crate::ratio::{lemma_add_int_cancel, lemma_add_int_same_value, lemma_scale_inverse, Rational};

verus! {

/// Converting between Celsius and Fahrenheit and back gives the number started from,
/// in either direction.
pub proof fn temperature_round_trip(x: Rational)
    requires
        x.wf(),
    ensures
        spec_fahrenheit_to_celcius(spec_celcius_to_fahrenheit(x)).same_value(x),
        spec_celcius_to_fahrenheit(spec_fahrenheit_to_celcius(x)).same_value(x),
{
    lemma_add_int_cancel(x.scale(9, 5), 32);
    lemma_scale_inverse(x, 9, 5);
    let y = x.add_int(-32);
    lemma_scale_inverse(y, 5, 9);
    lemma_add_int_same_value(y.scale(5, 9).scale(9, 5), y, 32);
    lemma_add_int_cancel(x, -32);
}

/// Converting between dollars and dong and back gives the number started from,
/// in either direction.
pub proof fn currency_round_trip(x: Rational)
    requires
        x.wf(),
    ensures
        spec_vnd_to_dollar(spec_dollar_to_vnd(x)).same_value(x),
        spec_dollar_to_vnd(spec_vnd_to_dollar(x)).same_value(x),
{
    lemma_scale_inverse(x, 23000, 1);
    lemma_scale_inverse(x, 1, 23000);
}

/// Converting between inches and centimetres and back gives the number started from,
/// in either direction.
pub proof fn length_round_trip(x: Rational)
    requires
        x.wf(),
    ensures
        spec_cm_to_inch(spec_inch_to_cm(x)).same_value(x),
        spec_inch_to_cm(spec_cm_to_inch(x)).same_value(x),
{
    lemma_scale_inverse(x, 127, 50);
    lemma_scale_inverse(x, 50, 127);
}

/// Converting between kilograms and pounds and back gives the number started from,
/// in either direction.
pub proof fn mass_round_trip(x: Rational)
    requires
        x.wf(),
    ensures
        spec_lib_to_kb(spec_kg_to_lib(x)).same_value(x),
        spec_kg_to_lib(spec_lib_to_kb(x)).same_value(x),
{
    lemma_scale_inverse(x, 441, 200);
    lemma_scale_inverse(x, 200, 441);
}

/// Converting between the two speed formulas and back gives the number started from,
/// in either direction.
pub proof fn speed_round_trip(x: Rational)
    requires
        x.wf(),
    ensures
        spec_mps_to_kph(spec_kph_to_mps(x)).same_value(x),
        spec_kph_to_mps(spec_mps_to_kph(x)).same_value(x),
{
    lemma_scale_inverse(x, 18, 5);
    lemma_scale_inverse(x, 5, 18);
}

/// Converting between joules and calories and back gives the number started from,
/// in either direction.
pub proof fn energy_round_trip(x: Rational)
    requires
        x.wf(),
    ensures
        spec_cal_to_joule(spec_joule_to_cal(x)).same_value(x),
        spec_joule_to_cal(spec_cal_to_joule(x)).same_value(x),
{
    lemma_scale_inverse(x, 239, 1000);
    lemma_scale_inverse(x, 1000, 239);
}

/// Converting between horsepower and watts and back gives the number started from,
/// in either direction.
pub proof fn power_round_trip(x: Rational)
    requires
        x.wf(),
    ensures
        spec_watts_to_hp(spec_hp_to_watts(x)).same_value(x),
        spec_hp_to_watts(spec_watts_to_hp(x)).same_value(x),
{
    lemma_scale_inverse(x, 735499, 1000);
    lemma_scale_inverse(x, 1000, 735499);
}

} // verus!
