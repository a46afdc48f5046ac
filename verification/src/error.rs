//! The engine's error values: a numeric error code with a default message, and
//! an error that carries a message, the place it was raised and its cause.

use vstd::prelude::*;

verus! {

/// The kinds of error the engine reports; each has a fixed number.
#[derive(Copy, Clone, Debug, PartialEq, Eq, Structural)]
pub enum ErrorCode {
    InternalError,
    InvalidInput,
    NotSupportError,
    ResourceExist,
    InvalidCredentials,
    NotAuthorized,
    NotFound,
    SessionNotExist,
    FileSizeError,
    ParseError,
    UnexpectedError,
}

/// The number of each error code.
pub open spec fn code_number(c: ErrorCode) -> u16 {
    match c {
        ErrorCode::InternalError => 1001,
        ErrorCode::InvalidInput => 2001,
        ErrorCode::NotSupportError => 2002,
        ErrorCode::ResourceExist => 2003,
        ErrorCode::InvalidCredentials => 3001,
        ErrorCode::NotAuthorized => 3002,
        ErrorCode::NotFound => 4001,
        ErrorCode::SessionNotExist => 4002,
        ErrorCode::FileSizeError => 5001,
        ErrorCode::ParseError => 6001,
        ErrorCode::UnexpectedError => 7001,
    }
}

/// The default message of each error code.
pub open spec fn default_message_of(c: ErrorCode) -> Seq<char> {
    match c {
        ErrorCode::InternalError => "Inernal error"@,
        ErrorCode::InvalidInput => "Invalid input"@,
        ErrorCode::NotSupportError => "Not support"@,
        ErrorCode::ResourceExist => "Resource exists"@,
        ErrorCode::InvalidCredentials => "Invalid username or password provided"@,
        ErrorCode::NotAuthorized => "Not authorized"@,
        ErrorCode::SessionNotExist => "Session not exists"@,
        ErrorCode::NotFound => "Not found"@,
        ErrorCode::FileSizeError => "File size error"@,
        ErrorCode::ParseError => "Parse error"@,
        ErrorCode::UnexpectedError => "Unexpected error"@,
    }
}

impl ErrorCode {
    /// The number of this code.
    pub fn int_value(&self) -> (r: u16)
        ensures
            r == code_number(*self),
    {
        match self {
            ErrorCode::InternalError => 1001,
            ErrorCode::InvalidInput => 2001,
            ErrorCode::NotSupportError => 2002,
            ErrorCode::ResourceExist => 2003,
            ErrorCode::InvalidCredentials => 3001,
            ErrorCode::NotAuthorized => 3002,
            ErrorCode::NotFound => 4001,
            ErrorCode::SessionNotExist => 4002,
            ErrorCode::FileSizeError => 5001,
            ErrorCode::ParseError => 6001,
            ErrorCode::UnexpectedError => 7001,
        }
    }

    /// The code with number `v`, if there is one.
    pub fn from_int(v: u16) -> (r: Option<ErrorCode>)
        ensures
            r matches Some(c) ==> code_number(c) == v,
            r is None ==> forall|c: ErrorCode| code_number(c) != v,
    {
        if v == 1001 {
            Some(ErrorCode::InternalError)
        } else if v == 2001 {
            Some(ErrorCode::InvalidInput)
        } else if v == 2002 {
            Some(ErrorCode::NotSupportError)
        } else if v == 2003 {
            Some(ErrorCode::ResourceExist)
        } else if v == 3001 {
            Some(ErrorCode::InvalidCredentials)
        } else if v == 3002 {
            Some(ErrorCode::NotAuthorized)
        } else if v == 4001 {
            Some(ErrorCode::NotFound)
        } else if v == 4002 {
            Some(ErrorCode::SessionNotExist)
        } else if v == 5001 {
            Some(ErrorCode::FileSizeError)
        } else if v == 6001 {
            Some(ErrorCode::ParseError)
        } else if v == 7001 {
            Some(ErrorCode::UnexpectedError)
        } else {
            None
        }
    }

    /// The default message of this code.
    pub fn default_message(&self) -> (r: String)
        ensures
            r@ == default_message_of(*self),
    {
        match self {
            ErrorCode::InternalError => String::from_str("Inernal error"),
            ErrorCode::InvalidInput => String::from_str("Invalid input"),
            ErrorCode::NotSupportError => String::from_str("Not support"),
            ErrorCode::ResourceExist => String::from_str("Resource exists"),
            ErrorCode::InvalidCredentials => String::from_str("Invalid username or password provided"),
            ErrorCode::NotAuthorized => String::from_str("Not authorized"),
            ErrorCode::SessionNotExist => String::from_str("Session not exists"),
            ErrorCode::NotFound => String::from_str("Not found"),
            ErrorCode::FileSizeError => String::from_str("File size error"),
            ErrorCode::ParseError => String::from_str("Parse error"),
            ErrorCode::UnexpectedError => String::from_str("Unexpected error"),
        }
    }
}

/// Distinct codes have distinct numbers, and a code's number leads back to it.
pub proof fn lemma_code_number_injective(a: ErrorCode, b: ErrorCode)
    ensures
        code_number(a) == code_number(b) <==> a == b,
{
}

/// An error of the engine: its code, a message, where it was raised and what
/// caused it.
#[derive(Debug)]
pub struct AppError {
    pub code: ErrorCode,
    pub msg: String,
    pub location: String,
    pub child_err: Option<Box<AppError>>,
}

/// `e` has the code `code`, the message `msg` and no cause.
pub open spec fn is_error(e: AppError, code: ErrorCode, msg: Seq<char>) -> bool {
    e.code == code && e.msg@ == msg && e.child_err is None
}

/// The message that an error gets: the one given, or else the code's default.
pub open spec fn message_for(code: ErrorCode, msg: Option<Seq<char>>) -> Seq<char> {
    match msg {
        Some(m) => m,
        None => default_message_of(code),
    }
}

impl AppError {
    /// An error with `code`, the message `msg` (the code's default message where
    /// `msg` is `None`), raised at `location`, caused by `source`.
    pub fn new(code: ErrorCode, msg: Option<&str>, location: &str, source: Option<Box<AppError>>) -> (r: Self)
        ensures
            r.code == code,
            r.msg@ == message_for(code, match msg { Some(m) => Some(m@), None => None }),
            r.location@ == location@,
            r.child_err == source,
    {
        let mut message = code.default_message();
        if let Some(m) = msg {
            message = m.to_owned();
        }
        AppError { code, msg: message, location: location.to_owned(), child_err: source }
    }

    /// An `UnexpectedError` with its default message, raised at `location`.
    pub fn unexpected_error(location: &str) -> (r: Self)
        ensures
            r.code == ErrorCode::UnexpectedError,
            r.msg@ == default_message_of(ErrorCode::UnexpectedError),
            r.location@ == location@,
            r.child_err is None,
    {
        AppError::new(ErrorCode::UnexpectedError, None, location, None)
    }

    /// A `NotFound` error with its default message, raised at `location`.
    pub fn notfound_error(location: &str) -> (r: Self)
        ensures
            r.code == ErrorCode::NotFound,
            r.msg@ == default_message_of(ErrorCode::NotFound),
            r.location@ == location@,
            r.child_err is None,
    {
        AppError::new(ErrorCode::NotFound, None, location, None)
    }

    /// An `InternalError` with its default message, raised at `location`.
    pub fn internal_error(location: &str) -> (r: Self)
        ensures
            r.code == ErrorCode::InternalError,
            r.msg@ == default_message_of(ErrorCode::InternalError),
            r.location@ == location@,
            r.child_err is None,
    {
        AppError::new(ErrorCode::InternalError, None, location, None)
    }

    /// The error that caused this one, if any.
    pub fn cause(&self) -> (r: Option<&AppError>)
        ensures
            r == match &self.child_err {
                Some(b) => Some(&**b),
                None => None,
            },
    {
        match &self.child_err {
            None => None,
            Some(err) => Some(&**err),
        }
    }
}

} // verus!
