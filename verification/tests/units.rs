use ballistics::error::UnitError;
use ballistics::rat::Rat;
use ballistics::units::{moa_adjustments_to_zero, Inch, LinearDistance, MOAAdjustment, Yard};

#[test]
fn conversion_of_inch_to_yard() {
    let d_inch: Inch = Inch::new(Rat::from_int(4_000));
    let d_yard: Yard = Yard::from(d_inch);

    let units = d_yard.units.num as f64 / d_yard.units.den as f64;
    assert!((units - 111.111) <= 0.001);
}

#[test]
fn conversion_of_yard_to_inch() {
    let d_yard: Yard = Yard::new(Rat::from_int(400));
    let d_inch: Inch = Inch::from(d_yard);

    let units = d_inch.units.num as f64 / d_inch.units.den as f64;
    assert!((units - 14440.433) <= 0.001)
}

#[test]
fn yard_moa_calculations_are_accurate() {
    let mut distance: Yard = Yard::new(Rat::from_int(100));
    assert!(distance.moa().units.equivalent(&Rat::new(1047, 1000).unwrap()));

    distance.units = Rat::from_int(325);
    assert!(distance.moa().units.equivalent(&Rat::new(325 * 1047, 100 * 1000).unwrap()));
}

#[test]
fn inches_moa_calculations_are_accurate() {
    let mut distance: Inch = Inch::from(Yard::new(Rat::from_int(100)));
    assert!(distance.moa().units.equivalent(&Rat::new(1047, 1000).unwrap()));

    distance = Inch::from(Yard::new(Rat::from_int(375)));
    assert!(distance.moa().units.equivalent(&Rat::new(375 * 1047, 100 * 1000).unwrap()));
}

#[test]
fn calculate_moa_adjustment_by_shot_offset() {
    // (4 * 1.047) 4.188 inches below @ 400y = 1MOA
    let mut offset: Inch = Inch::new(Rat::new(4188, 1000).unwrap());
    let adjustments = moa_adjustments_to_zero(&offset, &Yard::new(Rat::from_int(400))).unwrap();
    assert!(adjustments.amount.equivalent(&Rat::from_int(1)));

    offset = Inch::new(Rat::new(21, 10).unwrap());
    let adjustments = moa_adjustments_to_zero(&offset, &Yard::new(Rat::from_int(200))).unwrap();
    assert!(adjustments.good_enough().equivalent(&Rat::from_int(1)));

    offset = Inch::new(Rat::from_int(6));
    let adjustments = moa_adjustments_to_zero(&offset, &Yard::new(Rat::from_int(400))).unwrap();
    assert!(adjustments.good_enough().equivalent(&Rat::new(15, 10).unwrap()));

    offset = Inch::new(Rat::from_int(1));
    let adjustments = moa_adjustments_to_zero(&offset, &Yard::new(Rat::from_int(400))).unwrap();
    assert!(adjustments.good_enough().equivalent(&Rat::from_int(0)));
}

#[test]
fn round_trip_of_yard_through_inch_is_exact() {
    let original = Rat::new(12_345, 100).unwrap();
    let there: Inch = Inch::from(Yard::new(original));
    let back: Yard = Yard::from(there);
    assert!(back.units.equivalent(&original));
}

#[test]
fn zero_distance_is_rejected() {
    let offset = Inch::new(Rat::from_int(3));
    let result = moa_adjustments_to_zero(&offset, &Yard::new(Rat::from_int(0)));
    assert_eq!(result.unwrap_err(), UnitError::InvalidDistance);
}

#[test]
fn zero_denominator_is_rejected() {
    assert_eq!(Rat::new(1, 0).unwrap_err(), UnitError::InvalidMeasurement);
}

#[test]
fn negative_denominator_moves_the_sign() {
    let r = Rat::new(13, -10).unwrap();
    assert_eq!(r.num, -13);
    assert_eq!(r.den, 10);
}

#[test]
fn good_enough_is_idempotent() {
    let offset = Inch::new(Rat::from_int(6));
    let adjustment = moa_adjustments_to_zero(&offset, &Yard::new(Rat::from_int(400))).unwrap();
    let first = adjustment.good_enough();
    let second = adjustment.good_enough();
    assert_eq!(first.num, second.num);
    assert_eq!(first.den, second.den);
}

#[test]
fn ties_round_toward_zero() {
    let quarter_past_one = MOAAdjustment { amount: Rat::new(125, 100).unwrap() };
    assert!(quarter_past_one.good_enough().equivalent(&Rat::from_int(1)));

    let three_quarters = MOAAdjustment { amount: Rat::new(75, 100).unwrap() };
    assert!(three_quarters.good_enough().equivalent(&Rat::new(5, 10).unwrap()));

    let negative_tie = MOAAdjustment { amount: Rat::new(-125, 100).unwrap() };
    assert!(negative_tie.good_enough().equivalent(&Rat::from_int(-1)));
}

#[test]
fn exact_half_multiples_are_kept() {
    let one = MOAAdjustment { amount: Rat::from_int(1) };
    assert!(one.good_enough().equivalent(&Rat::from_int(1)));

    let one_and_a_half = MOAAdjustment { amount: Rat::new(15, 10).unwrap() };
    assert!(one_and_a_half.good_enough().equivalent(&Rat::new(15, 10).unwrap()));

    let negative_half = MOAAdjustment { amount: Rat::new(-5, 10).unwrap() };
    assert!(negative_half.good_enough().equivalent(&Rat::new(-5, 10).unwrap()));
}

#[test]
fn negative_amounts_round_to_the_nearest_half() {
    let amount = MOAAdjustment { amount: Rat::new(-13, 10).unwrap() };
    assert!(amount.good_enough().equivalent(&Rat::new(-15, 10).unwrap()));
}

#[test]
fn distance_returns_the_same_measurement() {
    let yards = Yard::new(Rat::new(2_505, 10).unwrap());
    assert!(yards.distance().units.equivalent(&yards.units));

    let inches = Inch::new(Rat::new(-42, 10).unwrap());
    assert!(inches.distance().units.equivalent(&inches.units));
}

#[test]
fn equivalent_compares_values_not_representations() {
    assert!(Rat::new(1, 2).unwrap().equivalent(&Rat::new(2, 4).unwrap()));
    assert!(!Rat::new(1, 2).unwrap().equivalent(&Rat::new(3, 4).unwrap()));
    assert!(Rat::new(-3, 6).unwrap().equivalent(&Rat::new(1, -2).unwrap()));
}
