//! Response envelopes in the JSend convention: `success` with data, `fail`
//! with data about a rejected request, `error` with a message.

pub mod jsend;

use crate::error::{error_text, VestaError};
use vstd::prelude::*;

verus! {

/// A JSend envelope around data of type `T`.
#[derive(Clone, Debug)]
pub enum JSendResponse<T> {
    Success { data: T },
    Fail { data: T },
    Error { message: String, code: Option<u32>, data: Option<T> },
}

/// The payloads that the dashboard's responses carry.
#[derive(Clone, Debug)]
pub enum ResponseData {
    /// No data.
    Empty,
    /// A message for the caller.
    Message(String),
    /// A rejected input field and why.
    Validation { field: String, message: String },
    /// The group and title of a lookup that found nothing.
    Lookup { group: String, title: String },
    /// A service whose widget has no settings.
    MissingWidgetConfig { service: String },
    /// The text of an underlying failure.
    Details(String),
}

impl<T> JSendResponse<T> {
    pub fn success(data: T) -> (r: Self)
        ensures
            r == (JSendResponse::Success { data }),
    {
        JSendResponse::Success { data }
    }

    pub fn fail(data: T) -> (r: Self)
        ensures
            r == (JSendResponse::Fail { data }),
    {
        JSendResponse::Fail { data }
    }

    pub fn error(message: &str) -> (r: Self)
        ensures
            r matches JSendResponse::Error { message: m, code: None, data: None } && m@ == message@,
    {
        JSendResponse::Error { message: String::from_str(message), code: None, data: None }
    }

    pub fn error_with_code(message: &str, code: u32) -> (r: Self)
        ensures
            r matches JSendResponse::Error { message: m, code: Some(c), data: None } && m@ == message@ && c == code,
    {
        JSendResponse::Error { message: String::from_str(message), code: Some(code), data: None }
    }

    pub fn error_with_data(message: &str, data: T) -> (r: Self)
        ensures
            r matches JSendResponse::Error { message: m, code: None, data: Some(d) } && m@ == message@ && d == data,
    {
        JSendResponse::Error { message: String::from_str(message), code: None, data: Some(data) }
    }

    pub fn is_success(&self) -> (r: bool)
        ensures
            r == self is Success,
    {
        matches!(self, JSendResponse::Success { .. })
    }

    pub fn is_fail(&self) -> (r: bool)
        ensures
            r == self is Fail,
    {
        matches!(self, JSendResponse::Fail { .. })
    }

    pub fn is_error(&self) -> (r: bool)
        ensures
            r == self is Error,
    {
        matches!(self, JSendResponse::Error { .. })
    }
}

/// The HTTP status of an envelope: 200 for success, 400 for fail, 500 for error.
pub fn status_of<T>(r: &JSendResponse<T>) -> (s: u16)
    ensures
        s == match *r {
            JSendResponse::Success { .. } => 200u16,
            JSendResponse::Fail { .. } => 400u16,
            JSendResponse::Error { .. } => 500u16,
        },
{
    match r {
        JSendResponse::Success { .. } => 200,
        JSendResponse::Fail { .. } => 400,
        JSendResponse::Error { .. } => 500,
    }
}

/// Whether envelope `r` reports error `e`: lookups that found nothing as
/// errors with the group and title, missing settings as fails, and other
/// failures as errors carrying the error's HTTP status as their code.
pub open spec fn reports_error(e: VestaError, r: JSendResponse<ResponseData>) -> bool {
    match e {
        VestaError::ServiceNotFound { group, title } => r matches JSendResponse::Error {
            message: m,
            code: Some(c),
            data: Some(ResponseData::Lookup { group: g, title: t }),
        } && m@ == error_text(e) && c == 404 && g@ == group@ && t@ == title@,
        VestaError::WidgetNotFound { group, title } => r matches JSendResponse::Error {
            message: m,
            code: Some(c),
            data: Some(ResponseData::Lookup { group: g, title: t }),
        } && m@ == error_text(e) && c == 404 && g@ == group@ && t@ == title@,
        VestaError::MissingCredentials { field } => r matches JSendResponse::Fail {
            data: ResponseData::Validation { field: f, message: m },
        } && f@ == field@ && m@ == "Missing required field"@,
        VestaError::MissingWidgetConfig { service } => r matches JSendResponse::Fail {
            data: ResponseData::MissingWidgetConfig { service: sv },
        } && sv@ == service@,
        VestaError::Config(c) => r matches JSendResponse::Error {
            message: m,
            code: Some(k),
            data: Some(ResponseData::Details(d)),
        } && m@ == "Configuration error"@ && k == 500 && d@ == c.text(),
        VestaError::Http(h) => r matches JSendResponse::Error {
            message: m,
            code: Some(k),
            data: Some(ResponseData::Details(d)),
        } && m@ == "External service error"@ && k == 502 && d@ == h@,
        VestaError::ApiError { status, message } => r matches JSendResponse::Error {
            message: m,
            code: Some(k),
            data: None,
        } && m@ == "API error: "@ + message@ && k == status as u32,
        VestaError::Internal(msg) => r matches JSendResponse::Error { message: m, code: Some(k), data: None }
            && m@ == msg@ && k == 500,
        _ => r matches JSendResponse::Error { message: m, code: Some(k), data: None } && m@ == error_text(e)
            && k == e.status() as u32,
    }
}

/// The envelope that reports `error`.
pub fn from_error(error: VestaError) -> (r: JSendResponse<ResponseData>)
    ensures
        reports_error(error, r),
{
    let code = error.status_code() as u32;
    match error {
        VestaError::ServiceNotFound { group, title } => {
            let message = VestaError::ServiceNotFound { group: group.clone(), title: title.clone() }.message();
            JSendResponse::Error { message, code: Some(code), data: Some(ResponseData::Lookup { group, title }) }
        },
        VestaError::WidgetNotFound { group, title } => {
            let message = VestaError::WidgetNotFound { group: group.clone(), title: title.clone() }.message();
            JSendResponse::Error { message, code: Some(code), data: Some(ResponseData::Lookup { group, title }) }
        },
        VestaError::MissingCredentials { field } => JSendResponse::Fail {
            data: ResponseData::Validation { field, message: String::from_str("Missing required field") },
        },
        VestaError::MissingWidgetConfig { service } => JSendResponse::Fail {
            data: ResponseData::MissingWidgetConfig { service },
        },
        VestaError::Config(c) => JSendResponse::Error {
            message: String::from_str("Configuration error"),
            code: Some(code),
            data: Some(ResponseData::Details(c.message())),
        },
        VestaError::Http(m) => JSendResponse::Error {
            message: String::from_str("External service error"),
            code: Some(code),
            data: Some(ResponseData::Details(m)),
        },
        VestaError::ApiError { status, message } => {
            let mut text = String::from_str("API error: ");
            text.append(message.as_str());
            JSendResponse::Error { message: text, code: Some(code), data: None }
        },
        VestaError::Internal(message) => JSendResponse::Error { message, code: Some(code), data: None },
        other => {
            let message = other.message();
            JSendResponse::Error { message, code: Some(code), data: None }
        },
    }
}

} // verus!
