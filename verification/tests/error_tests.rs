use apf_engine::error::{AppError, ErrorCode};

#[test]
fn test_some_error() {
    let err1 = AppError::new(ErrorCode::InternalError, None, "error_tests.rs:5", None);
    assert_eq!(err1.msg, "Inernal error");

    let err2 = AppError::new(ErrorCode::InternalError, None, "error_tests.rs:8", Some(Box::new(err1)));
    assert_eq!(err2.cause().unwrap().msg, "Inernal error");
}

#[test]
fn error_code_numbers() {
    let all = [
        (ErrorCode::InternalError, 1001),
        (ErrorCode::InvalidInput, 2001),
        (ErrorCode::NotSupportError, 2002),
        (ErrorCode::ResourceExist, 2003),
        (ErrorCode::InvalidCredentials, 3001),
        (ErrorCode::NotAuthorized, 3002),
        (ErrorCode::NotFound, 4001),
        (ErrorCode::SessionNotExist, 4002),
        (ErrorCode::FileSizeError, 5001),
        (ErrorCode::ParseError, 6001),
        (ErrorCode::UnexpectedError, 7001),
    ];
    for (code, n) in all.iter() {
        assert_eq!(code.int_value(), *n);
        assert_eq!(ErrorCode::from_int(*n), Some(*code));
    }
    assert_eq!(ErrorCode::from_int(0), None);
    assert_eq!(ErrorCode::from_int(1002), None);
}

#[test]
fn error_code_default_messages() {
    assert_eq!(ErrorCode::InternalError.default_message(), "Inernal error");
    assert_eq!(ErrorCode::InvalidInput.default_message(), "Invalid input");
    assert_eq!(ErrorCode::NotSupportError.default_message(), "Not support");
    assert_eq!(ErrorCode::ResourceExist.default_message(), "Resource exists");
    assert_eq!(ErrorCode::InvalidCredentials.default_message(), "Invalid username or password provided");
    assert_eq!(ErrorCode::NotAuthorized.default_message(), "Not authorized");
    assert_eq!(ErrorCode::NotFound.default_message(), "Not found");
    assert_eq!(ErrorCode::SessionNotExist.default_message(), "Session not exists");
    assert_eq!(ErrorCode::FileSizeError.default_message(), "File size error");
    assert_eq!(ErrorCode::ParseError.default_message(), "Parse error");
    assert_eq!(ErrorCode::UnexpectedError.default_message(), "Unexpected error");
}

#[test]
fn app_error_keeps_given_message_and_location() {
    let e = AppError::new(ErrorCode::NotFound, Some("no such task"), "here", None);
    assert_eq!(e.code, ErrorCode::NotFound);
    assert_eq!(e.msg, "no such task");
    assert_eq!(e.location, "here");
    assert!(e.cause().is_none());
}

#[test]
fn app_error_shorthands() {
    let e = AppError::unexpected_error("a");
    assert_eq!(e.code, ErrorCode::UnexpectedError);
    assert_eq!(e.msg, "Unexpected error");
    assert_eq!(e.location, "a");
    let e = AppError::notfound_error("b");
    assert_eq!(e.code, ErrorCode::NotFound);
    assert_eq!(e.msg, "Not found");
    let e = AppError::internal_error("c");
    assert_eq!(e.code, ErrorCode::InternalError);
    assert_eq!(e.msg, "Inernal error");
}
