use bsl::Integer;
use bsl::IntoSafeIntegral;
use bsl::SafeIntegral;

fn into_safe_integral_general_for_t<T>()
where
    T: Integer,
{
    let val = T::magic_1();
    assert!(val.into_safe_integral().is_valid());
    let val = SafeIntegral::<T>::magic_1();
    assert!(val.into_safe_integral().is_valid());
}

#[test]
fn into_safe_integral_general() {
    into_safe_integral_general_for_t::<i8>();
    into_safe_integral_general_for_t::<i16>();
    into_safe_integral_general_for_t::<i32>();
    into_safe_integral_general_for_t::<i64>();
    into_safe_integral_general_for_t::<u8>();
    into_safe_integral_general_for_t::<u16>();
    into_safe_integral_general_for_t::<u32>();
    into_safe_integral_general_for_t::<u64>();
    into_safe_integral_general_for_t::<usize>();
}
