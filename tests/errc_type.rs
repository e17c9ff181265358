use bsl::errc_already_exists;
use bsl::errc_assetion;
use bsl::errc_busy;
use bsl::errc_divide_by_zero;
use bsl::errc_failure;
use bsl::errc_index_out_of_bounds;
use bsl::errc_invalid_argument;
use bsl::errc_narrow_overflow;
use bsl::errc_nullptr_dereference;
use bsl::errc_postcondition;
use bsl::errc_precondition;
use bsl::errc_signed_overflow;
use bsl::errc_success;
use bsl::errc_unsigned_wrap;
use bsl::errc_unsupported;

#[test]
fn errc_type_success() {
    assert!(errc_success().success());
    assert!(!errc_failure().success());
    assert!(!errc_precondition().success());
    assert!(!errc_postcondition().success());
    assert!(!errc_assetion().success());
    assert!(!errc_invalid_argument().success());
    assert!(!errc_index_out_of_bounds().success());
    assert!(!errc_unsigned_wrap().success());
    assert!(!errc_narrow_overflow().success());
    assert!(!errc_signed_overflow().success());
    assert!(!errc_divide_by_zero().success());
    assert!(!errc_nullptr_dereference().success());
    assert!(!errc_busy().success());
    assert!(!errc_already_exists().success());
    assert!(!errc_unsupported().success());
}

#[test]
fn errc_type_failure() {
    assert!(!errc_success().failure());
    assert!(errc_failure().failure());
    assert!(errc_precondition().failure());
    assert!(errc_postcondition().failure());
    assert!(errc_assetion().failure());
    assert!(errc_invalid_argument().failure());
    assert!(errc_index_out_of_bounds().failure());
    assert!(errc_unsigned_wrap().failure());
    assert!(errc_narrow_overflow().failure());
    assert!(errc_signed_overflow().failure());
    assert!(errc_divide_by_zero().failure());
    assert!(errc_nullptr_dereference().failure());
    assert!(errc_busy().failure());
    assert!(errc_already_exists().failure());
    assert!(errc_unsupported().failure());
}
