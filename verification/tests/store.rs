use log_anomaly::store::{
    store_error, StoreError, StoreFailure, ALREADY_EXISTS, DEADLINE_EXCEEDED, FAILED_PRECONDITION,
    INTERNAL, INVALID_ARGUMENT, NOT_FOUND, OUT_OF_RANGE, PERMISSION_DENIED, UNAUTHENTICATED,
    UNAVAILABLE,
};

#[test]
fn status_codes_are_those_of_grpc() {
    assert_eq!(INVALID_ARGUMENT, 3);
    assert_eq!(DEADLINE_EXCEEDED, 4);
    assert_eq!(NOT_FOUND, 5);
    assert_eq!(ALREADY_EXISTS, 6);
    assert_eq!(PERMISSION_DENIED, 7);
    assert_eq!(FAILED_PRECONDITION, 9);
    assert_eq!(OUT_OF_RANGE, 11);
    assert_eq!(INTERNAL, 13);
    assert_eq!(UNAVAILABLE, 14);
    assert_eq!(UNAUTHENTICATED, 16);
}

#[test]
fn store_without_an_answer_is_unreachable() {
    assert_eq!(store_error(StoreFailure::NoAnswer), StoreError::Unreachable);
    assert_eq!(store_error(StoreFailure::Status(UNAVAILABLE)), StoreError::Unreachable);
    assert_eq!(store_error(StoreFailure::Status(DEADLINE_EXCEEDED)), StoreError::Unreachable);
}

#[test]
fn refusals_are_rejections() {
    for code in [3u32, 5, 6, 7, 9, 11, 16] {
        assert_eq!(store_error(StoreFailure::Status(code)), StoreError::Rejected, "{}", code);
    }
}

#[test]
fn every_other_status_is_internal() {
    for code in [0u32, 1, 2, 8, 10, 12, 13, 15, 17, 18, 100, u32::MAX] {
        assert_eq!(store_error(StoreFailure::Status(code)), StoreError::Internal, "{}", code);
    }
}
