use bsl::Integer;
use bsl::SafeIdx;
use bsl::SafeUMx;

#[test]
fn safe_idx_constructors() {
    assert!(SafeIdx::default().is_valid());
    assert!(SafeIdx::new(1).is_valid());

    let val = SafeUMx::default();
    assert!(SafeIdx::new_from(val).is_valid());
    let val = SafeUMx::failure();
    assert!(val.is_invalid());
}

#[test]
fn safe_idx_debug() {
    println!("{:?}", SafeIdx::magic_1());
    println!("{:?}", SafeIdx::max_value() + SafeIdx::magic_1());
    println!("{:?}", SafeIdx::magic_1());
    println!("{:?}", SafeIdx::max_value() + SafeIdx::magic_1());
    println!("{:?}", SafeIdx::magic_1());
    println!("{:?}", SafeIdx::max_value() + SafeIdx::magic_1());
    println!("{:?}", SafeIdx::magic_1());
    println!("{:?}", SafeIdx::max_value() + SafeIdx::magic_1());
    println!("{:?}", SafeIdx::magic_1());
    println!("{:?}", SafeIdx::max_value() + SafeIdx::magic_1());
    println!("{:?}", SafeIdx::magic_1());
    println!("{:?}", SafeIdx::max_value() + SafeIdx::magic_1());
    println!("{:?}", SafeIdx::magic_1());
    println!("{:?}", SafeIdx::max_value() + SafeIdx::magic_1());
    println!("{:?}", SafeIdx::magic_1());
    println!("{:?}", SafeIdx::max_value() + SafeIdx::magic_1());
    println!("{:?}", SafeIdx::magic_1());
    println!("{:?}", SafeIdx::max_value() + SafeIdx::magic_1());
    println!("{:?}", SafeIdx::magic_1());
    println!("{:?}", SafeIdx::max_value() + SafeIdx::magic_1());
}

#[test]
fn safe_idx_max_min() {
    assert!(SafeIdx::max_value() == usize::max_value());
    assert!(SafeIdx::min_value() == usize::min_value());
}

#[test]
fn safe_idx_magic() {
    assert!(SafeIdx::magic_0() == 0);
    assert!(SafeIdx::magic_1() == 1);
    assert!(SafeIdx::magic_2() == 2);
    assert!(SafeIdx::magic_3() == 3);
}

#[test]
fn safe_idx_data() {
    let mut val = SafeIdx::new(1);
    *val.data_as_ref() = usize::magic_1();
    assert!(*val.data_as_ref() == usize::magic_1());
    assert!(*val.cdata_as_ref() == usize::magic_1());
    *val.data_as_ref() = usize::magic_2();
    assert!(*val.data_as_ref() == usize::magic_2());
    assert!(*val.cdata_as_ref() == usize::magic_2());
}

#[test]
fn safe_idx_get() {
    let val = SafeIdx::new(1);
    assert!(val.get() == 1);
    let val = SafeIdx::max_value() + SafeIdx::magic_1();
}

#[test]
fn safe_idx_is_queries() {
    assert_eq!(SafeIdx::magic_0().is_zero(), true);
    assert_eq!(SafeIdx::magic_0().is_pos(), false);
    assert_eq!(SafeIdx::magic_1().is_zero(), false);
    assert_eq!(SafeIdx::magic_1().is_pos(), true);

    let val = SafeIdx::max_value() + SafeIdx::magic_1();
}

#[test]
fn safe_idx_failure() {
    assert_eq!(SafeIdx::magic_0().is_invalid(), false);
    assert_eq!(SafeIdx::magic_0().is_valid(), true);

    assert_eq!(SafeIdx::magic_1().is_invalid(), false);
    assert_eq!(SafeIdx::magic_1().is_valid(), true);

    let val = SafeIdx::max_value() + SafeIdx::magic_1();
    assert_eq!(val.is_invalid(), true);
    assert_eq!(val.is_valid(), false);
}

#[test]
fn safe_idx_rational() {
    assert!(SafeIdx::magic_1() == SafeIdx::magic_1());
    assert!(SafeIdx::magic_1() != SafeIdx::magic_2());
    assert!(SafeIdx::magic_1() < SafeIdx::magic_2());
    assert!(SafeIdx::magic_1() <= SafeIdx::magic_2());
    assert!(SafeIdx::magic_1() <= SafeIdx::magic_1());
    assert!(SafeIdx::magic_1() > SafeIdx::magic_0());
    assert!(SafeIdx::magic_1() >= SafeIdx::magic_0());
    assert!(SafeIdx::magic_1() >= SafeIdx::magic_1());

    assert!(SafeIdx::magic_1() == SafeIdx::magic_1().get());
    assert!(SafeIdx::magic_1() != SafeIdx::magic_2().get());
    assert!(SafeIdx::magic_1() < SafeIdx::magic_2().get());
    assert!(SafeIdx::magic_1() <= SafeIdx::magic_2().get());
    assert!(SafeIdx::magic_1() <= SafeIdx::magic_1().get());
    assert!(SafeIdx::magic_1() > SafeIdx::magic_0().get());
    assert!(SafeIdx::magic_1() >= SafeIdx::magic_0().get());
    assert!(SafeIdx::magic_1() >= SafeIdx::magic_1().get());

    assert!(SafeIdx::magic_1() == SafeUMx::magic_1());
    assert!(SafeIdx::magic_1() != SafeUMx::magic_2());
    assert!(SafeIdx::magic_1() < SafeUMx::magic_2());
    assert!(SafeIdx::magic_1() <= SafeUMx::magic_2());
    assert!(SafeIdx::magic_1() <= SafeUMx::magic_1());
    assert!(SafeIdx::magic_1() > SafeUMx::magic_0());
    assert!(SafeIdx::magic_1() >= SafeUMx::magic_0());
    assert!(SafeIdx::magic_1() >= SafeUMx::magic_1());
}

#[test]
fn safe_idx_add() {
    let mut val = SafeIdx::magic_1();
    val += SafeIdx::magic_1();
    assert!(val == 2);

    let mut val = SafeIdx::magic_1();
    val += SafeIdx::max_value();
    assert!(val.is_invalid());

    let val = SafeIdx::magic_1();
    assert!((val + SafeIdx::magic_1()) == 2);

    let val = SafeIdx::magic_1();
    assert!((val + SafeIdx::max_value()).is_invalid());

    let mut val = SafeIdx::magic_1();
    val += 1;
    assert!(val == 2);

    let mut val = SafeIdx::magic_1();
    val += usize::max_value();
    assert!(val.is_invalid());

    let val = SafeIdx::magic_1();
    assert!((val + 1) == 2);

    let val = SafeIdx::magic_1();
    assert!((val + usize::max_value()).is_invalid());
}

#[test]
fn safe_idx_sub() {
    let mut val = SafeIdx::magic_1();
    val -= SafeIdx::magic_1();
    assert!(val == 0);

    let mut val = SafeIdx::min_value();
    val -= SafeIdx::magic_1();
    assert!(val.is_invalid());

    let val = SafeIdx::magic_1();
    assert!((val - SafeIdx::magic_1()) == 0);

    let val = SafeIdx::min_value();
    assert!((val - SafeIdx::magic_1()).is_invalid());

    let mut val = SafeIdx::magic_1();
    val -= 1;
    assert!(val == 0);

    let mut val = SafeIdx::min_value();
    val -= 1;
    assert!(val.is_invalid());

    let val = SafeIdx::magic_1();
    assert!((val - 1) == 0);

    let val = SafeIdx::min_value();
    assert!((val - 1).is_invalid());
}
