use bsl::errc_success;
use bsl::expects;

#[test]
fn expects_bool() {
    expects(true);
}

#[test]
fn expects_errc_type() {
    expects(errc_success());
}
