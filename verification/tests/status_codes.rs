use wolfssl::status::{
    check_allocated, check_count, check_nonnegative, check_rc, check_verdict, check_written,
    check_written_unless_negative, is_match, BAD_FUNC_ARG, BUFFER_E, MEMORY_E,
};

#[test]
fn rc_zero_is_success() {
    assert_eq!(check_rc(0), Ok(()));
}

#[test]
fn rc_nonzero_is_handed_back() {
    assert_eq!(check_rc(BAD_FUNC_ARG), Err(-173));
    assert_eq!(check_rc(BUFFER_E), Err(-132));
    assert_eq!(check_rc(1), Err(1));
}

#[test]
fn count_negative_is_error() {
    assert_eq!(check_count(-1), Err(-1));
    assert_eq!(check_count(i32::MIN), Err(i32::MIN));
}

#[test]
fn count_nonnegative_is_byte_count() {
    assert_eq!(check_count(0), Ok(0));
    assert_eq!(check_count(256), Ok(256));
    assert_eq!(check_count(i32::MAX), Ok(2147483647usize));
}

#[test]
fn nonnegative_size_is_kept() {
    assert_eq!(check_nonnegative(32), Ok(32));
    assert_eq!(check_nonnegative(0), Ok(0));
    assert_eq!(check_nonnegative(-170), Err(-170));
}

#[test]
fn written_reports_length_on_success() {
    assert_eq!(check_written(0, 65), Ok(65));
    assert_eq!(check_written(0, 0), Ok(0));
    assert_eq!(check_written(-132, 65), Err(-132));
    assert_eq!(check_written(3, 65), Err(3));
}

#[test]
fn written_unless_negative_accepts_positive_codes() {
    assert_eq!(check_written_unless_negative(0, 32), Ok(32));
    assert_eq!(check_written_unless_negative(32, 48), Ok(48));
    assert_eq!(check_written_unless_negative(-1, 32), Err(-1));
}

#[test]
fn verdict_reads_result_flag() {
    assert_eq!(check_verdict(0, 1), Ok(true));
    assert_eq!(check_verdict(0, 7), Ok(true));
    assert_eq!(check_verdict(0, 0), Ok(false));
    assert_eq!(check_verdict(-173, 1), Err(-173));
}

#[test]
fn failed_allocation_reports_memory_error() {
    assert_eq!(check_allocated(true), Ok(()));
    assert_eq!(check_allocated(false), Err(MEMORY_E));
    assert_eq!(check_allocated(false), Err(-125));
}

#[test]
fn comparison_matches_on_nonzero() {
    assert!(is_match(1));
    assert!(is_match(-1));
    assert!(!is_match(0));
}
