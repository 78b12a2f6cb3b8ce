use typed_equations::numbers::{DivisionByZero, Rational};

#[test]
fn from_integer_non_zero_is_integer() {
    let r = Rational::<i64>::from_integer(5);
    match r {
        Rational::Integer(n) => assert_eq!(n.get(), 5),
        _ => panic!("expected the Integer tag"),
    }
    let r = Rational::<i64>::from_integer(-17);
    match r {
        Rational::Integer(n) => assert_eq!(n.get(), -17),
        _ => panic!("expected the Integer tag"),
    }
    let r = Rational::<i64>::from_integer(i64::MIN);
    match r {
        Rational::Integer(n) => assert_eq!(n.get(), i64::MIN),
        _ => panic!("expected the Integer tag"),
    }
}

#[test]
fn from_integer_zero_is_zero() {
    let r = Rational::<i64>::from_integer(0);
    assert!(matches!(r, Rational::Zero));
}

#[test]
fn from_ratio_zero_numerator_is_zero() {
    let r = Rational::<i64>::from_ratio(0, 4).expect("a non-zero denominator must be accepted");
    assert!(matches!(r, Rational::Zero));
    let r = Rational::<i64>::from_ratio(0, u32::MAX)
        .expect("a non-zero denominator must be accepted");
    assert!(matches!(r, Rational::Zero));
}

#[test]
fn from_ratio_zero_denominator_fails() {
    assert!(matches!(Rational::<i64>::from_ratio(3, 0), Err(DivisionByZero)));
    assert!(matches!(Rational::<i64>::from_ratio(-3, 0), Err(DivisionByZero)));
    // The denominator is checked first: a zero numerator does not rescue it.
    assert!(matches!(Rational::<i64>::from_ratio(0, 0), Err(DivisionByZero)));
}

#[test]
fn from_ratio_keeps_components_exactly() {
    let r = Rational::<i64>::from_ratio(3, 4).expect("a non-zero denominator must be accepted");
    match r {
        Rational::Fractional(f) => {
            assert_eq!(f.numerator().get(), 3);
            assert_eq!(f.denominator().get(), 4);
        }
        _ => panic!("expected the Fractional tag"),
    }
    // No implicit reduction: 2/4 stays 2/4, it does not become 1/2.
    let r = Rational::<i64>::from_ratio(2, 4).expect("a non-zero denominator must be accepted");
    match r {
        Rational::Fractional(f) => {
            assert_eq!(f.numerator().get(), 2);
            assert_eq!(f.denominator().get(), 4);
        }
        _ => panic!("expected the Fractional tag"),
    }
    let r = Rational::<i64>::from_ratio(i64::MIN, u32::MAX)
        .expect("a non-zero denominator must be accepted");
    match r {
        Rational::Fractional(f) => {
            assert_eq!(f.numerator().get(), i64::MIN);
            assert_eq!(f.denominator().get(), u32::MAX);
        }
        _ => panic!("expected the Fractional tag"),
    }
}
