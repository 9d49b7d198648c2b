use cyclonedds::error::{check, check_entity, err_file_id, err_line, err_nr, DdsError};

#[test]
fn public_error_helpers_match_current_c_header_macros() {
    assert_eq!(err_nr(-10), -10);
    assert_eq!(err_line(-10), 0);
    assert_eq!(err_file_id(-10), 0);
}

#[test]
fn raw_code_exposes_structured_return_codes() {
    assert_eq!(DdsError::from(-10).raw_code(), Some(-10));
    assert_eq!(DdsError::from(-3).raw_code(), Some(-3));
    assert_eq!(DdsError::Unsupported("x".into()).raw_code(), None);
}

#[test]
fn codes_map_to_their_errors() {
    assert!(matches!(DdsError::from(-2), DdsError::OutOfMemory));
    assert!(matches!(DdsError::from(-5), DdsError::OutOfResources));
    assert!(matches!(DdsError::from(-9), DdsError::AlreadyDeleted));
    assert!(matches!(DdsError::from(-10), DdsError::Timeout));
    assert!(matches!(DdsError::from(-42), DdsError::ReturnCode(-42)));
    assert_eq!(DdsError::from(-3).to_string(), "bad parameter: bad parameter");
}

#[test]
fn transient_errors_are_the_retryable_ones() {
    assert!(DdsError::Timeout.is_transient());
    assert!(DdsError::OutOfResources.is_transient());
    assert!(!DdsError::AlreadyDeleted.is_transient());
}

#[test]
fn check_passes_non_negative_codes() {
    assert!(check(0).is_ok());
    assert!(check(7).is_ok());
    assert!(matches!(check(-10), Err(DdsError::Timeout)));
    assert_eq!(check_entity(12).unwrap(), 12);
    assert!(check_entity(-3).is_err());
}
