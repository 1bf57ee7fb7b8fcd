use paradajz::ratio::Ratio;

#[test]
fn ratio_holds_fractions_between_zero_and_one() {
    let half = Ratio::new(1, 2).unwrap();
    assert_eq!(half.numerator(), 1);
    assert_eq!(half.denominator(), 2);
    assert!(Ratio::new(0, 1).is_some());
    assert!(Ratio::new(5, 5).is_some());
    assert!(Ratio::new(i64::MAX, i64::MAX).is_some());
}

#[test]
fn ratio_refuses_what_is_no_fraction_between_zero_and_one() {
    assert!(Ratio::new(1, 0).is_none());
    assert!(Ratio::new(0, 0).is_none());
    assert!(Ratio::new(-1, 2).is_none());
    assert!(Ratio::new(3, 2).is_none());
    assert!(Ratio::new(-2, -1).is_none());
    assert!(Ratio::new(0, -1).is_none());
}

#[test]
fn percent_rounds_down() {
    assert_eq!(Ratio::new(0, 7).unwrap().percent(), 0);
    assert_eq!(Ratio::new(1, 3).unwrap().percent(), 33);
    assert_eq!(Ratio::new(2, 3).unwrap().percent(), 66);
    assert_eq!(Ratio::new(29, 100).unwrap().percent(), 29);
    assert_eq!(Ratio::new(999, 1000).unwrap().percent(), 99);
    assert_eq!(Ratio::new(1000, 1000).unwrap().percent(), 100);
    assert_eq!(Ratio::new(i64::MAX - 1, i64::MAX).unwrap().percent(), 99);
    assert_eq!(Ratio::new(i64::MAX, i64::MAX).unwrap().percent(), 100);
}
