use conversion::{Conversion, Ratio};

fn whole(n: i128) -> Ratio {
    Ratio::from_integer(n)
}

fn frac(num: i128, den: i128) -> Ratio {
    Ratio::new(num, den).unwrap()
}

fn same(a: Ratio, b: Ratio) -> bool {
    a.same_value(&b)
}

#[test]
fn celcius_to_fahrenheit() {
    let fahrenheit_result = Conversion::celcius_to_fahrenheit(whole(0));
    println!("Value after conversion : {:?}", fahrenheit_result);
    assert!(same(whole(32), fahrenheit_result));
}

#[test]
fn fahrenheit_to_celcius() {
    let fahrenheit_result = Conversion::fahrenheit_to_celcius(whole(32));
    println!("Value after conversion : {:?}", fahrenheit_result);
    assert!(same(whole(0), fahrenheit_result));
}

#[test]
fn dollar_to_vnd() {
    let fahrenheit_result = Conversion::dollar_to_vnd(whole(1));
    println!("Value after conversion : {:?}", fahrenheit_result);
    assert!(same(whole(23000), fahrenheit_result));
}

#[test]
fn vnd_to_dollar() {
    let fahrenheit_result = Conversion::vnd_to_dollar(whole(23000));
    println!("Value after conversion : {:?}", fahrenheit_result);
    assert!(same(whole(1), fahrenheit_result));
}

#[test]
fn inch_to_cm_one_inch() {
    assert!(same(Conversion::inch_to_cm(whole(1)), frac(254, 100)));
}

#[test]
fn kg_to_lib_one_kilogram() {
    assert!(same(Conversion::kg_to_lib(whole(1)), frac(2205, 1000)));
}

#[test]
fn exact_values_of_each_formula() {
    assert!(same(Conversion::celcius_to_fahrenheit(whole(100)), whole(212)));
    assert!(same(Conversion::celcius_to_fahrenheit(whole(-40)), whole(-40)));
    assert!(same(Conversion::fahrenheit_to_celcius(whole(212)), whole(100)));
    assert!(same(Conversion::cm_to_inch(frac(254, 100)), whole(1)));
    assert!(same(Conversion::lib_to_kb(frac(441, 100)), whole(2)));
    assert!(same(Conversion::kph_to_mps(whole(10)), whole(36)));
    assert!(same(Conversion::mps_to_kph(whole(36)), whole(10)));
    assert!(same(Conversion::joule_to_cal(whole(1000)), whole(239)));
    assert!(same(Conversion::cal_to_joule(whole(239)), whole(1000)));
    assert!(same(Conversion::watts_to_hp(frac(735499, 1000)), whole(1)));
    assert!(same(Conversion::hp_to_watts(whole(2)), frac(1470998, 1000)));
}

#[test]
fn results_differ_from_inputs() {
    assert!(!same(Conversion::inch_to_cm(whole(1)), whole(1)));
    assert!(!same(Conversion::kph_to_mps(whole(1)), whole(1)));
    assert!(!same(Conversion::watts_to_hp(whole(1)), whole(1)));
}

#[test]
fn round_trips_give_back_the_input() {
    let x = frac(-7, 3);
    let t = Conversion::fahrenheit_to_celcius(Conversion::celcius_to_fahrenheit(x));
    assert!(same(t, x));
    let t = Conversion::celcius_to_fahrenheit(Conversion::fahrenheit_to_celcius(x));
    assert!(same(t, x));
    assert!(same(Conversion::vnd_to_dollar(Conversion::dollar_to_vnd(x)), x));
    assert!(same(Conversion::cm_to_inch(Conversion::inch_to_cm(x)), x));
    assert!(same(Conversion::lib_to_kb(Conversion::kg_to_lib(x)), x));
    assert!(same(Conversion::mps_to_kph(Conversion::kph_to_mps(x)), x));
    assert!(same(Conversion::cal_to_joule(Conversion::joule_to_cal(x)), x));
    assert!(same(Conversion::watts_to_hp(Conversion::hp_to_watts(x)), x));
}

#[test]
fn new_rejects_non_positive_denominator() {
    assert!(Ratio::new(1, 0).is_none());
    assert!(Ratio::new(1, -2).is_none());
    let r = frac(3, 4);
    assert_eq!(r.numerator(), 3);
    assert_eq!(r.denominator(), 4);
}

#[test]
fn scale_and_add_integer_are_exact() {
    let r = frac(1, 2).scale(3, 5);
    assert_eq!((r.numerator(), r.denominator()), (3, 10));
    let r = frac(1, 2).add_integer(-1);
    assert_eq!((r.numerator(), r.denominator()), (-1, 2));
}

#[test]
fn large_values_convert_exactly() {
    let big: i128 = 1_000_000_000_000_000_000;
    assert!(same(Conversion::dollar_to_vnd(whole(big)), whole(big * 23000)));
    assert!(same(Conversion::vnd_to_dollar(Conversion::dollar_to_vnd(whole(big))), whole(big)));
}
