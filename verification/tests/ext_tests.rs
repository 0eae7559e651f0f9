//! The single-row helpers: flattening optional and repeated rows.

use pgwrap::error::EncodingError;
use pgwrap::ext::first_only;
use pgwrap::ext::not_opt;

#[test]
fn not_opt_keeps_a_present_row() {
    let r: Result<Option<u32>, EncodingError> = Ok(Some(7));
    assert_eq!(not_opt(r, EncodingError::InvalidEncoding), Ok(7));
}

#[test]
fn not_opt_turns_absence_into_not_found() {
    let r: Result<Option<u32>, EncodingError> = Ok(None);
    assert_eq!(
        not_opt(r, EncodingError::InvalidEncoding),
        Err(EncodingError::InvalidEncoding)
    );
}

#[test]
fn not_opt_passes_errors_through() {
    let r: Result<Option<u32>, &str> = Err("broken");
    assert_eq!(not_opt(r, "missing"), Err("broken"));
}

#[test]
fn first_only_keeps_the_first_row() {
    let r: Result<Vec<u32>, &str> = Ok(vec![4, 5, 6]);
    assert_eq!(first_only(r, "missing"), Ok(4));
}

#[test]
fn first_only_turns_an_empty_result_into_not_found() {
    let r: Result<Vec<u32>, &str> = Ok(vec![]);
    assert_eq!(first_only(r, "missing"), Err("missing"));
    let e: Result<Vec<u32>, &str> = Err("broken");
    assert_eq!(first_only(e, "missing"), Err("broken"));
}
