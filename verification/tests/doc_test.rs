use zvec::doc::stored_element_count;
use zvec::error::{check_error, ErrorCode};

#[test]
fn stored_element_count_of_aligned_vector() {
    assert_eq!(stored_element_count(false, 16, 4, "f32").unwrap(), 4);
    assert_eq!(stored_element_count(false, 16, 8, "f64").unwrap(), 2);
    assert_eq!(stored_element_count(false, 6, 2, "i16").unwrap(), 3);
    assert_eq!(stored_element_count(false, 5, 1, "u8").unwrap(), 5);
}

#[test]
fn stored_element_count_of_missing_or_empty_value() {
    assert_eq!(stored_element_count(true, 16, 4, "f32").unwrap(), 0);
    assert_eq!(stored_element_count(true, 7, 4, "f32").unwrap(), 0);
    assert_eq!(stored_element_count(false, 0, 8, "f64").unwrap(), 0);
}

#[test]
fn stored_element_count_rejects_misaligned_size() {
    let err = stored_element_count(false, 7, 4, "f32").unwrap_err();
    assert_eq!(err.code, ErrorCode::InternalError);
    assert_eq!(err.message, "vector data size is not aligned to f32");
    let err = stored_element_count(false, 3, 2, "i16").unwrap_err();
    assert_eq!(err.message, "vector data size is not aligned to i16");
}

#[test]
fn check_error_maps_status_codes() {
    assert!(check_error(0, None).is_ok());
    assert!(check_error(0, Some("ignored".to_string())).is_ok());
    let err = check_error(1, Some("no such doc".to_string())).unwrap_err();
    assert!(err.is_not_found());
    assert_eq!(err.message, "no such doc");
    let err = check_error(42, None).unwrap_err();
    assert_eq!(err.code, ErrorCode::Unknown);
    assert_eq!(err.message, "unknown error");
    let err = check_error(3, None).unwrap_err();
    assert!(err.is_invalid_argument());
}
