//! Shorthands for the common envelopes.

use crate::response::{JSendResponse, ResponseData};
use vstd::prelude::*;

verus! {

pub fn success<T>(data: T) -> (r: JSendResponse<T>)
    ensures
        r == (JSendResponse::Success { data }),
{
    JSendResponse::success(data)
}

pub fn success_empty() -> (r: JSendResponse<ResponseData>)
    ensures
        r == (JSendResponse::Success { data: ResponseData::Empty }),
{
    JSendResponse::success(ResponseData::Empty)
}

pub fn success_message(message: &str) -> (r: JSendResponse<ResponseData>)
    ensures
        r matches JSendResponse::Success { data: ResponseData::Message(m) } && m@ == message@,
{
    JSendResponse::success(ResponseData::Message(String::from_str(message)))
}

pub fn fail<T>(data: T) -> (r: JSendResponse<T>)
    ensures
        r == (JSendResponse::Fail { data }),
{
    JSendResponse::fail(data)
}

pub fn fail_message(message: &str) -> (r: JSendResponse<ResponseData>)
    ensures
        r matches JSendResponse::Fail { data: ResponseData::Message(m) } && m@ == message@,
{
    JSendResponse::fail(ResponseData::Message(String::from_str(message)))
}

pub fn fail_validation(field: &str, message: &str) -> (r: JSendResponse<ResponseData>)
    ensures
        r matches JSendResponse::Fail { data: ResponseData::Validation { field: f, message: m } } && f@ == field@
            && m@ == message@,
{
    JSendResponse::fail(ResponseData::Validation { field: String::from_str(field), message: String::from_str(message) })
}

pub fn error(message: &str) -> (r: JSendResponse<ResponseData>)
    ensures
        r matches JSendResponse::Error { message: m, code: None, data: None } && m@ == message@,
{
    JSendResponse::error(message)
}

/// An error with code 404 saying that `resource` was not found.
pub fn error_not_found(resource: &str) -> (r: JSendResponse<ResponseData>)
    ensures
        r matches JSendResponse::Error { message: m, code: Some(c), data: None } && c == 404
            && m@ == resource@ + " not found"@,
{
    let mut message = String::from_str(resource);
    message.append(" not found");
    JSendResponse::Error { message, code: Some(404), data: None }
}

pub fn error_unauthorized() -> (r: JSendResponse<ResponseData>)
    ensures
        r matches JSendResponse::Error { message: m, code: Some(c), data: None } && c == 401 && m@ == "Unauthorized"@,
{
    JSendResponse::Error { message: String::from_str("Unauthorized"), code: Some(401), data: None }
}

pub fn error_forbidden() -> (r: JSendResponse<ResponseData>)
    ensures
        r matches JSendResponse::Error { message: m, code: Some(c), data: None } && c == 403 && m@ == "Forbidden"@,
{
    JSendResponse::Error { message: String::from_str("Forbidden"), code: Some(403), data: None }
}

pub fn error_internal(message: &str) -> (r: JSendResponse<ResponseData>)
    ensures
        r matches JSendResponse::Error { message: m, code: Some(c), data: None } && c == 500 && m@ == message@,
{
    JSendResponse::Error { message: String::from_str(message), code: Some(500), data: None }
}

} // verus!
