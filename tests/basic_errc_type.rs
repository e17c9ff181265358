use bsl::BasicErrcType;
use bsl::IntoBool;

#[test]
fn basic_errc_type_safe_integral_debug() {
    println!("{:?}", BasicErrcType::<i32>::new(0));
    println!("{:?}", BasicErrcType::<i32>::new(0));
    println!("{:?}", BasicErrcType::<i32>::new(0));
    println!("{:?}", BasicErrcType::<i32>::new(0));
    println!("{:?}", BasicErrcType::<i32>::new(0));
    println!("{:?}", BasicErrcType::<i32>::new(0));
    println!("{:?}", BasicErrcType::<i32>::new(0));
    println!("{:?}", BasicErrcType::<i32>::new(0));
    println!("{:?}", BasicErrcType::<i32>::new(0));
    println!("{:?}", BasicErrcType::<i32>::new(0));
}

#[test]
fn basic_errc_type_default_construction() {
    let ret: BasicErrcType<i32> = Default::default();
    assert!(ret.success());
}

#[test]
fn basic_errc_type_copy() {
    let ret1 = BasicErrcType::<i32>::new(0);
    let ret2 = ret1;
    assert!(ret1.success());
    assert!(ret2.success());
}

#[test]
fn basic_errc_type_clone() {
    let ret1 = BasicErrcType::<i32>::new(0);
    let ret2 = ret1.clone();
    assert!(ret1.success());
    assert!(ret2.success());
}

#[test]
fn basic_errc_type_partialeq() {
    let ret1 = BasicErrcType::<i32>::new(42);
    let ret2 = BasicErrcType::<i32>::new(42);
    let ret3 = BasicErrcType::<i32>::new(0);
    assert!(ret1 == ret2);
    assert!(ret1 != ret3);
}

#[test]
fn basic_errc_type_partialord() {
    let ret1 = BasicErrcType::<i32>::new(0);
    let ret2 = BasicErrcType::<i32>::new(0);
    let ret3 = BasicErrcType::<i32>::new(42);
    assert!(ret1 < ret3);
    assert!(ret2 <= ret2);
    assert!(ret3 > ret2);
    assert!(ret3 >= ret3);
}

#[test]
fn basic_errc_type_new_construction() {
    let ret1 = BasicErrcType::<i32>::new(42);
    let ret2 = BasicErrcType::<i32>::new(0);
    let ret3 = BasicErrcType::<i32>::new(-42);
    assert!(ret1.success());
    assert!(ret2.success());
    assert!(ret3.failure());
}

#[test]
fn basic_errc_type_get() {
    let ret1 = BasicErrcType::<i32>::new(42);
    let ret2 = BasicErrcType::<i32>::new(0);
    let ret3 = BasicErrcType::<i32>::new(-42);
    assert!(ret1.get() == 42);
    assert!(ret2.get() == 0);
    assert!(ret3.get() == -42);
}

#[test]
fn basic_errc_type_success() {
    let ret1 = BasicErrcType::<i32>::new(42);
    let ret2 = BasicErrcType::<i32>::new(0);
    let ret3 = BasicErrcType::<i32>::new(-42);
    assert!(ret1.success());
    assert!(ret2.success());
    assert!(!ret3.success());
}

#[test]
fn basic_errc_type_failure() {
    let ret1 = BasicErrcType::<i32>::new(42);
    let ret2 = BasicErrcType::<i32>::new(0);
    let ret3 = BasicErrcType::<i32>::new(-42);
    assert!(!ret1.failure());
    assert!(!ret2.failure());
    assert!(ret3.failure());
}

#[test]
fn basic_errc_type_not() {
    let ret = BasicErrcType::<i32>::new(-42);
    assert!(!ret);

    let ret = BasicErrcType::<i32>::new(0);
    assert!(!!ret);
}

#[test]
fn basic_errc_type_into() {
    let ret: bool = BasicErrcType::<i32>::new(0).into();
    assert!(ret == true);

    let ret: bool = BasicErrcType::<i32>::new(-42).into();
    assert!(ret == false);
}

#[test]
fn basic_errc_type_into_bool() {
    let ret = BasicErrcType::<i32>::new(0);
    assert!(ret.into_bool() == true);

    let ret = BasicErrcType::<i32>::new(-42);
    assert!(ret.into_bool() == false);
}
