//! How an operation ends: a payload with a status, or an error with a status.
use vstd::prelude::*;

verus! {

/// The HTTP statuses the protocol operations answer with.
#[allow(non_camel_case_types)]
#[derive(Clone, Copy, Debug, PartialEq, Eq, Structural)]
pub enum StatusCode {
    OK,
    CREATED,
    SEE_OTHER,
    BAD_REQUEST,
    UNPROCESSABLE_ENTITY,
    INTERNAL_SERVER_ERROR,
}

impl StatusCode {
    /// The numeric code of a status.
    pub open spec fn code(self) -> u16 {
        match self {
            StatusCode::OK => 200,
            StatusCode::CREATED => 201,
            StatusCode::SEE_OTHER => 303,
            StatusCode::BAD_REQUEST => 400,
            StatusCode::UNPROCESSABLE_ENTITY => 422,
            StatusCode::INTERNAL_SERVER_ERROR => 500,
        }
    }

    pub fn as_u16(&self) -> (r: u16)
        ensures
            r == self.code(),
    {
        match self {
            StatusCode::OK => 200,
            StatusCode::CREATED => 201,
            StatusCode::SEE_OTHER => 303,
            StatusCode::BAD_REQUEST => 400,
            StatusCode::UNPROCESSABLE_ENTITY => 422,
            StatusCode::INTERNAL_SERVER_ERROR => 500,
        }
    }

    /// The status with the given numeric code, if the protocol uses it.
    pub fn from_u16(code: u16) -> (r: Option<StatusCode>)
        ensures
            r matches Some(s) ==> s.code() == code,
            r is None ==> forall|s: StatusCode| s.code() != code,
    {
        if code == 200 {
            Some(StatusCode::OK)
        } else if code == 201 {
            Some(StatusCode::CREATED)
        } else if code == 303 {
            Some(StatusCode::SEE_OTHER)
        } else if code == 400 {
            Some(StatusCode::BAD_REQUEST)
        } else if code == 422 {
            Some(StatusCode::UNPROCESSABLE_ENTITY)
        } else if code == 500 {
            Some(StatusCode::INTERNAL_SERVER_ERROR)
        } else {
            None
        }
    }
}

/// A terminal failure: a machine-readable message and the status to send.
#[derive(Debug)]
pub struct ApiError {
    pub error: String,
    pub status_code: u16,
}

impl ApiError {
    /// Whether this error carries exactly `message` and `status`.
    pub open spec fn is(self, message: Seq<char>, status: StatusCode) -> bool {
        self.error@ == message && self.status_code == status.code()
    }

    pub fn new(error: String, status_code: StatusCode) -> (r: Self)
        ensures
            r.error == error,
            r.status_code == status_code.code(),
    {
        Self { error, status_code: status_code.as_u16() }
    }

    /// An error with a fixed message.
    pub fn of(message: &str, status_code: StatusCode) -> (r: Self)
        ensures
            r.is(message@, status_code),
    {
        Self { error: message.to_owned(), status_code: status_code.as_u16() }
    }
}

/// The body sent with a failure.
pub struct ApiErrorResponse {
    pub error: String,
}

impl ApiErrorResponse {
    pub fn new(error: String) -> (r: Self)
        ensures
            r.error == error,
    {
        Self { error }
    }
}

/// A successful end: the payload and the status to send it with.
pub struct ApiSuccess<T> {
    pub data: T,
    pub status_code: u16,
}

impl<T> ApiSuccess<T> {
    pub fn new(data: T, status_code: StatusCode) -> (r: Self)
        ensures
            r.data == data,
            r.status_code == status_code.code(),
    {
        Self { data, status_code: status_code.as_u16() }
    }
}

} // verus!
