//! The structured error that every failed request is answered with.

use vstd::prelude::*;

verus! {

/// Something went wrong inside the service.
pub const SERVER_ERROR: i16 = -1;

/// Nothing is kept under the path that was asked for.
pub const NOT_FOUND: i16 = -2;

/// The creation endpoint was called with a method other than POST.
pub const METHOD_NOT_ALLOWED: i16 = -3;

/// The time to live that was asked for is granted to known users only.
pub const NEED_AUTH: i16 = -4;

/// A JSON document could not be decoded.
pub const DECODE_ERROR: i16 = 100;

/// The destination is no URL that a browser could be sent to.
pub const URL_ERROR: i16 = 101;

/// The time to live is shorter than the service accepts.
pub const TTL_ERROR: i16 = 102;

/// Body of a failed response: a message for people, the HTTP status, and a
/// stable code that tells the categories of failure apart.
#[derive(Clone, Debug, PartialEq, Eq)]
pub struct JsError {
    pub message: String,
    pub status: u16,
    pub error_code: i16,
}

/// Mathematical value of a [`JsError`].
pub struct JsErrorView {
    pub message: Seq<char>,
    pub status: u16,
    pub error_code: i16,
}

impl View for JsError {
    type V = JsErrorView;

    open spec fn view(&self) -> JsErrorView {
        JsErrorView { message: self.message@, status: self.status, error_code: self.error_code }
    }
}

/// Mathematical value of an outcome that may have failed with a [`JsError`].
pub open spec fn outcome_view<T>(outcome: Result<T, JsError>) -> Result<T, JsErrorView> {
    match outcome {
        Ok(value) => Ok(value),
        Err(err) => Err(err@),
    }
}

impl JsError {
    pub fn build(message: String, status: u16, error_code: i16) -> (err: JsError)
        ensures
            err@ == (JsErrorView { message: message@, status, error_code }),
    {
        JsError { message, status, error_code }
    }
}

/// The error that answers a path under which nothing is kept.
pub open spec fn not_found_error() -> JsErrorView {
    JsErrorView { message: "Not Found"@, status: 404, error_code: NOT_FOUND }
}

/// The error that answers a wrong method on the creation endpoint.
pub open spec fn method_not_allowed_error() -> JsErrorView {
    JsErrorView { message: "Method Not Allowed"@, status: 415, error_code: METHOD_NOT_ALLOWED }
}

/// The error that reports an internal failure described by `message`.
pub open spec fn internal_error(message: Seq<char>) -> JsErrorView {
    JsErrorView { message, status: 500, error_code: SERVER_ERROR }
}

/// The error that reports a JSON document that does not decode.
pub open spec fn decode_error(message: Seq<char>) -> JsErrorView {
    JsErrorView { message, status: 400, error_code: DECODE_ERROR }
}

/// Fails with [`not_found_error`].
pub fn not_found<T>() -> (outcome: Result<T, JsError>)
    ensures
        outcome matches Err(err) && err@ == not_found_error(),
{
    Err(not_found_err())
}

/// Fails with [`method_not_allowed_error`].
pub fn method_not_allowed<T>() -> (outcome: Result<T, JsError>)
    ensures
        outcome matches Err(err) && err@ == method_not_allowed_error(),
{
    Err(gen_error("Method Not Allowed", 415, METHOD_NOT_ALLOWED))
}

pub fn server_error(message: &str) -> (err: JsError)
    ensures
        err@ == internal_error(message@),
{
    gen_error(message, 500, SERVER_ERROR)
}

pub fn not_found_err() -> (err: JsError)
    ensures
        err@ == not_found_error(),
{
    gen_error("Not Found", 404, NOT_FOUND)
}

/// The error with the given message, status and code.
pub fn gen_error(message: &str, status: u16, error_code: i16) -> (err: JsError)
    ensures
        err@ == (JsErrorView { message: message@, status, error_code }),
{
    JsError::build(message.to_owned(), status, error_code)
}

} // verus!
