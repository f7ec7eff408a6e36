use zvec::error::{
    check_created, is_c_compatible, to_cstring, to_cstrings, to_optional_cstring, CObject, Error,
    ErrorCode,
};
#[test]
fn error_code_from_u32_known_values() {
    assert_eq!(ErrorCode::from(1), ErrorCode::NotFound);
    assert_eq!(ErrorCode::from(2), ErrorCode::AlreadyExists);
    assert_eq!(ErrorCode::from(3), ErrorCode::InvalidArgument);
    assert_eq!(ErrorCode::from(4), ErrorCode::PermissionDenied);
    assert_eq!(ErrorCode::from(5), ErrorCode::FailedPrecondition);
    assert_eq!(ErrorCode::from(6), ErrorCode::ResourceExhausted);
    assert_eq!(ErrorCode::from(7), ErrorCode::Unavailable);
    assert_eq!(ErrorCode::from(8), ErrorCode::InternalError);
    assert_eq!(ErrorCode::from(9), ErrorCode::NotSupported);
}

#[test]
fn error_code_from_u32_unknown_falls_back() {
    assert_eq!(ErrorCode::from(0), ErrorCode::Unknown);
    assert_eq!(ErrorCode::from(10), ErrorCode::Unknown);
    assert_eq!(ErrorCode::from(99), ErrorCode::Unknown);
    assert_eq!(ErrorCode::from(u32::MAX), ErrorCode::Unknown);
}

#[test]
fn error_code_to_u32_roundtrip() {
    let codes = [
        ErrorCode::NotFound,
        ErrorCode::AlreadyExists,
        ErrorCode::InvalidArgument,
        ErrorCode::PermissionDenied,
        ErrorCode::FailedPrecondition,
        ErrorCode::ResourceExhausted,
        ErrorCode::Unavailable,
        ErrorCode::InternalError,
        ErrorCode::NotSupported,
        ErrorCode::Unknown,
    ];
    for code in codes {
        let numeric: u32 = code.into();
        assert!(
            (1..=10).contains(&numeric),
            "code {:?} mapped to {}",
            code,
            numeric
        );
    }
}

#[test]
fn error_code_display() {
    assert_eq!(ErrorCode::NotFound.to_string(), "NotFound");
    assert_eq!(ErrorCode::AlreadyExists.to_string(), "AlreadyExists");
    assert_eq!(ErrorCode::InvalidArgument.to_string(), "InvalidArgument");
    assert_eq!(ErrorCode::PermissionDenied.to_string(), "PermissionDenied");
    assert_eq!(
        ErrorCode::FailedPrecondition.to_string(),
        "FailedPrecondition"
    );
    assert_eq!(
        ErrorCode::ResourceExhausted.to_string(),
        "ResourceExhausted"
    );
    assert_eq!(ErrorCode::Unavailable.to_string(), "Unavailable");
    assert_eq!(ErrorCode::InternalError.to_string(), "InternalError");
    assert_eq!(ErrorCode::NotSupported.to_string(), "NotSupported");
    assert_eq!(ErrorCode::Unknown.to_string(), "Unknown");
}

#[test]
fn error_is_helpers() {
    let not_found = Error {
        code: ErrorCode::NotFound,
        message: "item missing".into(),
    };
    assert!(not_found.is_not_found());
    assert!(!not_found.is_already_exists());
    assert!(!not_found.is_invalid_argument());

    let already_exists = Error {
        code: ErrorCode::AlreadyExists,
        message: "duplicate".into(),
    };
    assert!(!already_exists.is_not_found());
    assert!(already_exists.is_already_exists());
    assert!(!already_exists.is_invalid_argument());

    let invalid_arg = Error {
        code: ErrorCode::InvalidArgument,
        message: "bad param".into(),
    };
    assert!(!invalid_arg.is_not_found());
    assert!(!invalid_arg.is_already_exists());
    assert!(invalid_arg.is_invalid_argument());
}

#[test]
fn error_display_format() {
    let err = Error {
        code: ErrorCode::InternalError,
        message: "something broke".into(),
    };
    assert_eq!(err.to_string(), "zvec error InternalError: something broke");
}

#[test]
fn error_implements_std_error() {
    let err = Error {
        code: ErrorCode::NotFound,
        message: "gone".into(),
    };
    assert!(err.to_string().contains("NotFound"));
}

#[test]
fn error_clone() {
    let err = Error {
        code: ErrorCode::Unavailable,
        message: "service down".into(),
    };
    let cloned = err.clone();
    assert_eq!(cloned.code, ErrorCode::Unavailable);
    assert_eq!(cloned.message, "service down");
}

#[test]
fn to_cstring_valid_string() {
    let result = to_cstring("hello");
    assert!(result.is_ok());
    assert_eq!(result.unwrap().as_str(), "hello");
}

#[test]
fn to_cstring_empty_string() {
    let result = to_cstring("");
    assert!(result.is_ok());
    assert_eq!(result.unwrap().as_str(), "");
}

#[test]
fn to_cstring_with_null_byte_returns_error() {
    let result = to_cstring("hello\0world");
    assert!(result.is_err());
    let err = result.unwrap_err();
    assert!(err.is_invalid_argument());
    assert!(err.message.contains("null byte"));
}

#[test]
fn to_cstring_unicode() {
    let result = to_cstring("你好世界🌍");
    assert!(result.is_ok());
    assert_eq!(result.unwrap().as_str(), "你好世界🌍");
}

#[test]
fn error_code_copy_semantics() {
    let code = ErrorCode::NotFound;
    let copied = code;
    assert_eq!(code, copied);
}

#[test]
fn error_code_eq() {
    assert_eq!(ErrorCode::NotFound, ErrorCode::NotFound);
    assert_ne!(ErrorCode::NotFound, ErrorCode::AlreadyExists);
}

#[test]
fn to_optional_cstring_keeps_absent_and_checks_present() {
    assert_eq!(to_optional_cstring(None).unwrap(), None);
    assert_eq!(to_optional_cstring(Some("AND")).unwrap(), Some("AND".to_string()));
    let err = to_optional_cstring(Some("A\0ND")).unwrap_err();
    assert_eq!(err.code, ErrorCode::InvalidArgument);
    assert_eq!(err.message, "string contains null byte");
}

#[test]
fn to_cstrings_is_all_or_nothing() {
    assert_eq!(
        to_cstrings(&["id", "title", ""]).unwrap(),
        vec!["id".to_string(), "title".to_string(), String::new()]
    );
    assert!(to_cstrings(&[]).unwrap().is_empty());
    let err = to_cstrings(&["id", "ti\0tle", "body"]).unwrap_err();
    assert_eq!(err.code, ErrorCode::InvalidArgument);
    assert_eq!(err.message, "string contains null byte");
}

#[test]
fn is_c_compatible_detects_null_characters() {
    assert!(is_c_compatible(""));
    assert!(is_c_compatible("héllo 世界"));
    assert!(!is_c_compatible("\0"));
    assert!(!is_c_compatible("end\0"));
}

#[test]
fn null_byte_error_is_invalid_argument() {
    let e = zvec::error::null_byte_error();
    assert!(e.is_invalid_argument());
    assert_eq!(e.message, "string contains null byte");
}

#[test]
fn check_created_reports_the_object() {
    assert!(check_created(false, CObject::Document).is_ok());
    let err = check_created(true, CObject::Document).unwrap_err();
    assert_eq!(err.code, ErrorCode::InternalError);
    assert_eq!(err.message, "failed to create document");
    let err = check_created(true, CObject::HnswIndexParams).unwrap_err();
    assert_eq!(err.message, "failed to create HNSW index params");
    let err = check_created(true, CObject::MultiQuery).unwrap_err();
    assert_eq!(err.message, "failed to create multi-query");
    let err = check_created(true, CObject::ConsoleLogConfig).unwrap_err();
    assert_eq!(err.message, "failed to create console log config");
}

#[test]
fn error_code_from_code_is_canonical() {
    for v in [0u32, 1, 5, 9, 10, 11, 1000, u32::MAX] {
        let once = ErrorCode::from(v);
        assert_eq!(ErrorCode::from(u32::from(once)), once);
    }
    assert_eq!(u32::from(ErrorCode::from(77)), 10);
}
