use substance_kinetics::{convert_mass, convert_time, DoseUnits, Frac, TimeUnits, UnitError};

fn frac(num: u64, den: u64) -> Frac {
    Frac { num, den }
}

#[test]
fn mass_round_trip_mg_g() {
    let x = frac(1500, 1);
    let y = convert_mass(&x, DoseUnits::Mg, DoseUnits::G).unwrap();
    assert!(y.value_eq(&frac(15, 10)));
    let z = convert_mass(&y, DoseUnits::G, DoseUnits::Mg).unwrap();
    assert!(z.value_eq(&x));
}

#[test]
fn mass_round_trip_ug_g() {
    let x = frac(7, 3);
    let y = convert_mass(&x, DoseUnits::Ug, DoseUnits::G).unwrap();
    assert!(y.value_eq(&frac(7, 3000000)));
    let z = convert_mass(&y, DoseUnits::G, DoseUnits::Ug).unwrap();
    assert!(z.value_eq(&x));
}

#[test]
fn mass_round_trip_ug_mg() {
    let x = frac(100, 1);
    let y = convert_mass(&x, DoseUnits::Ug, DoseUnits::Mg).unwrap();
    assert!(y.value_eq(&frac(1, 10)));
    let z = convert_mass(&y, DoseUnits::Mg, DoseUnits::Ug).unwrap();
    assert!(z.value_eq(&x));
}

#[test]
fn time_round_trip_minutes_hours() {
    let x = frac(90, 1);
    let y = convert_time(&x, TimeUnits::Minutes, TimeUnits::Hours).unwrap();
    assert!(y.value_eq(&frac(3, 2)));
    let z = convert_time(&y, TimeUnits::Hours, TimeUnits::Minutes).unwrap();
    assert!(z.value_eq(&x));
}

#[test]
fn time_round_trip_seconds_hours() {
    let x = frac(5400, 1);
    let y = convert_time(&x, TimeUnits::Seconds, TimeUnits::Hours).unwrap();
    assert!(y.value_eq(&frac(3, 2)));
    let z = convert_time(&y, TimeUnits::Hours, TimeUnits::Seconds).unwrap();
    assert!(z.value_eq(&x));
}

#[test]
fn identity_conversion_is_no_op() {
    let x = frac(42, 5);
    let y = convert_mass(&x, DoseUnits::Ml, DoseUnits::Ml).unwrap();
    assert_eq!(y, x);
    let t = convert_time(&x, TimeUnits::Seconds, TimeUnits::Seconds).unwrap();
    assert_eq!(t, x);
}

#[test]
fn volume_to_mass_is_unsupported() {
    let x = frac(10, 1);
    assert_eq!(
        convert_mass(&x, DoseUnits::Ml, DoseUnits::Mg),
        Err(UnitError::UnsupportedUnitConversion)
    );
    assert_eq!(
        convert_mass(&x, DoseUnits::G, DoseUnits::Ml),
        Err(UnitError::UnsupportedUnitConversion)
    );
}

#[test]
fn invalid_unit_conversion_is_unsupported() {
    let x = frac(10, 1);
    assert_eq!(
        convert_mass(&x, DoseUnits::Invalid, DoseUnits::Mg),
        Err(UnitError::UnsupportedUnitConversion)
    );
    assert_eq!(
        convert_time(&x, TimeUnits::Invalid, TimeUnits::Hours),
        Err(UnitError::UnsupportedUnitConversion)
    );
}

#[test]
fn conversion_overflow_is_reported() {
    let x = frac(u64::MAX, 1);
    assert_eq!(
        convert_mass(&x, DoseUnits::G, DoseUnits::Mg),
        Err(UnitError::Overflow)
    );
    let y = frac(1, u64::MAX);
    assert_eq!(
        convert_mass(&y, DoseUnits::Mg, DoseUnits::G),
        Err(UnitError::Overflow)
    );
}

#[test]
fn dose_unit_parsing_is_case_insensitive() {
    assert_eq!(DoseUnits::from(String::from("mg")), DoseUnits::Mg);
    assert_eq!(DoseUnits::from(String::from("MG")), DoseUnits::Mg);
    assert_eq!(DoseUnits::from(String::from("\u{b5}g")), DoseUnits::Ug);
    assert_eq!(DoseUnits::from(String::from("\u{b5}G")), DoseUnits::Ug);
    assert_eq!(DoseUnits::from(String::from("G")), DoseUnits::G);
    assert_eq!(DoseUnits::from(String::from("mL")), DoseUnits::Ml);
    assert_eq!(DoseUnits::from(String::from("stone")), DoseUnits::Invalid);
    assert_eq!(DoseUnits::from(String::from("")), DoseUnits::Invalid);
}

#[test]
fn time_unit_parsing_is_case_insensitive() {
    assert_eq!(TimeUnits::from(String::from("hours")), TimeUnits::Hours);
    assert_eq!(TimeUnits::from(String::from("Hours")), TimeUnits::Hours);
    assert_eq!(TimeUnits::from(String::from("MINUTES")), TimeUnits::Minutes);
    assert_eq!(TimeUnits::from(String::from("seconds")), TimeUnits::Seconds);
    assert_eq!(TimeUnits::from(String::from("fortnights")), TimeUnits::Invalid);
}

#[test]
fn unit_defaults_are_invalid() {
    assert_eq!(DoseUnits::default(), DoseUnits::Invalid);
    assert_eq!(TimeUnits::default(), TimeUnits::Invalid);
}

#[test]
fn dose_unit_symbols() {
    assert_eq!(DoseUnits::Mg.symbol(), "mg");
    assert_eq!(DoseUnits::Ug.symbol(), "\u{b5}g");
    assert_eq!(DoseUnits::G.symbol(), "g");
    assert_eq!(DoseUnits::Ml.symbol(), "ml");
}

#[test]
fn frac_value_equality_ignores_representation() {
    assert!(frac(1, 2).value_eq(&frac(2, 4)));
    assert!(!frac(1, 2).value_eq(&frac(2, 5)));
    assert!(frac(0, 1).value_eq(&frac(0, 7)));
}

#[test]
fn frac_new_rejects_zero_denominator() {
    assert!(Frac::new(1, 0).is_none());
    assert_eq!(Frac::new(3, 4), Some(frac(3, 4)));
}
