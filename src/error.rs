//! The library's error taxonomy.

use crate::text::{decimal, decimal_string};
use vstd::prelude::*;

verus! {

impl ConfigError {
    /// The text of the error.
    pub open spec fn text(self) -> Seq<char> {
        match self {
            ConfigError::IoError(m) => "Failed to read config file: "@ + m@,
            ConfigError::TomlError(m) => "Failed to parse TOML: "@ + m@,
        }
    }

    /// The text of the error.
    pub fn message(&self) -> (r: String)
        ensures
            r@ == self.text(),
    {
        match self {
            ConfigError::IoError(m) => {
                let mut s = String::from_str("Failed to read config file: ");
                s.append(m.as_str());
                s
            },
            ConfigError::TomlError(m) => {
                let mut s = String::from_str("Failed to parse TOML: ");
                s.append(m.as_str());
                s
            },
        }
    }
}

/// The text of an error.
pub open spec fn error_text(e: VestaError) -> Seq<char>
    decreases e,
{
    match e {
        VestaError::Config(c) => "Configuration error: "@ + c.text(),
        VestaError::Http(m) => "HTTP request failed: "@ + m@,
        VestaError::ServiceNotFound { group, title } => "Service not found: group='"@ + group@ + "', title='"@
            + title@ + "'"@,
        VestaError::WidgetNotFound { group, title } => "Widget not found: group='"@ + group@ + "', title='"@
            + title@ + "'"@,
        VestaError::MissingWidgetConfig { service } => "Widget configuration missing for service '"@ + service@
            + "'"@,
        VestaError::MissingCredentials { field } => "Missing credentials: "@ + field@,
        VestaError::ApiError { status, message } => "API error: "@ + decimal(status as nat) + " - "@ + message@,
        VestaError::UnknownWidget { widget, service } => match service {
            Some(s) => "Unknown widget '"@ + widget@ + "' in service '"@ + s@ + "'"@,
            None => "Unknown widget: "@ + widget@,
        },
        VestaError::InvalidWidgetConfig { widget, service, cause } => "Widget '"@ + widget@
            + "' validation failed for service '"@ + service@ + "': "@ + error_text(*cause),
        VestaError::Internal(m) => "Internal server error: "@ + m@,
    }
}

/// Why a configuration source could not be turned into a configuration.
#[derive(Clone, Debug)]
pub enum ConfigError {
    /// The source could not be read; the reader's message.
    IoError(String),
    /// The source is not a well-formed configuration; the parser's message.
    TomlError(String),
}

/// Every failure that the dashboard reports.
#[derive(Debug)]
pub enum VestaError {
    Config(ConfigError),
    /// An outbound request failed; the client's message.
    Http(String),
    ServiceNotFound { group: String, title: String },
    WidgetNotFound { group: String, title: String },
    MissingWidgetConfig { service: String },
    MissingCredentials { field: String },
    ApiError { status: u16, message: String },
    /// A widget name that no registered plugin carries; `service` names the
    /// service that refers to it, where there is one.
    UnknownWidget { widget: String, service: Option<String> },
    /// A plugin refused the settings of the widget of a service.
    InvalidWidgetConfig { widget: String, service: String, cause: Box<VestaError> },
    Internal(String),
}

/// A result whose error is a `VestaError`.
pub type VestaResult<T> = Result<T, VestaError>;

impl VestaError {
    /// An internal error carrying message `msg`.
    pub open spec fn is_internal(self, msg: Seq<char>) -> bool {
        match self {
            VestaError::Internal(m) => m@ == msg,
            _ => false,
        }
    }

    /// A missing-credentials error naming `field`.
    pub open spec fn is_missing_credentials(self, field: Seq<char>) -> bool {
        match self {
            VestaError::MissingCredentials { field: f } => f@ == field,
            _ => false,
        }
    }

    /// Builds an internal error with message `msg`.
    pub fn internal(msg: &str) -> (r: VestaError)
        ensures
            r.is_internal(msg@),
    {
        VestaError::Internal(String::from_str(msg))
    }

    /// The text of the error.
    pub fn message(&self) -> (r: String)
        ensures
            r@ == error_text(*self),
        decreases self,
    {
        match self {
            VestaError::Config(c) => {
                let mut s = String::from_str("Configuration error: ");
                let t = c.message();
                s.append(t.as_str());
                s
            },
            VestaError::Http(m) => {
                let mut s = String::from_str("HTTP request failed: ");
                s.append(m.as_str());
                s
            },
            VestaError::ServiceNotFound { group, title } => {
                let mut s = String::from_str("Service not found: group='");
                s.append(group.as_str());
                s.append("', title='");
                s.append(title.as_str());
                s.append("'");
                s
            },
            VestaError::WidgetNotFound { group, title } => {
                let mut s = String::from_str("Widget not found: group='");
                s.append(group.as_str());
                s.append("', title='");
                s.append(title.as_str());
                s.append("'");
                s
            },
            VestaError::MissingWidgetConfig { service } => {
                let mut s = String::from_str("Widget configuration missing for service '");
                s.append(service.as_str());
                s.append("'");
                s
            },
            VestaError::MissingCredentials { field } => {
                let mut s = String::from_str("Missing credentials: ");
                s.append(field.as_str());
                s
            },
            VestaError::ApiError { status, message } => {
                let mut s = String::from_str("API error: ");
                let d = decimal_string(*status as u64);
                s.append(d.as_str());
                s.append(" - ");
                s.append(message.as_str());
                s
            },
            VestaError::UnknownWidget { widget, service } => match service {
                Some(sv) => {
                    let mut s = String::from_str("Unknown widget '");
                    s.append(widget.as_str());
                    s.append("' in service '");
                    s.append(sv.as_str());
                    s.append("'");
                    s
                },
                None => {
                    let mut s = String::from_str("Unknown widget: ");
                    s.append(widget.as_str());
                    s
                },
            },
            VestaError::InvalidWidgetConfig { widget, service, cause } => {
                let mut s = String::from_str("Widget '");
                s.append(widget.as_str());
                s.append("' validation failed for service '");
                s.append(service.as_str());
                s.append("': ");
                let c = cause.message();
                s.append(c.as_str());
                s
            },
            VestaError::Internal(m) => {
                let mut s = String::from_str("Internal server error: ");
                s.append(m.as_str());
                s
            },
        }
    }

    /// The HTTP status that answers a request failing with this error.
    pub open spec fn status(self) -> u16 {
        match self {
            VestaError::Config(_) => 500,
            VestaError::Http(_) => 502,
            VestaError::ServiceNotFound { .. } => 404,
            VestaError::WidgetNotFound { .. } => 404,
            VestaError::MissingWidgetConfig { .. } => 400,
            VestaError::MissingCredentials { .. } => 400,
            VestaError::ApiError { status, .. } => status,
            VestaError::UnknownWidget { .. } => 404,
            VestaError::InvalidWidgetConfig { .. } => 500,
            VestaError::Internal(_) => 500,
        }
    }

    /// The HTTP status that answers a request failing with this error.
    pub fn status_code(&self) -> (r: u16)
        ensures
            r == self.status(),
    {
        match self {
            VestaError::Config(_) => 500,
            VestaError::Http(_) => 502,
            VestaError::ServiceNotFound { .. } => 404,
            VestaError::WidgetNotFound { .. } => 404,
            VestaError::MissingWidgetConfig { .. } => 400,
            VestaError::MissingCredentials { .. } => 400,
            VestaError::ApiError { status, .. } => *status,
            VestaError::UnknownWidget { .. } => 404,
            VestaError::InvalidWidgetConfig { .. } => 500,
            VestaError::Internal(_) => 500,
        }
    }

    /// A short description of the kind of error, for response bodies.
    pub fn summary(&self) -> (r: &'static str)
        ensures
            r@ == match *self {
                VestaError::Config(_) => "Configuration error"@,
                VestaError::Http(_) => "External service error"@,
                VestaError::ServiceNotFound { .. } => "Service not found"@,
                VestaError::WidgetNotFound { .. } => "Widget not found"@,
                VestaError::MissingWidgetConfig { .. } => "Missing widget configuration"@,
                VestaError::MissingCredentials { .. } => "Missing credentials"@,
                VestaError::ApiError { .. } => "API error"@,
                VestaError::UnknownWidget { .. } => "Unknown widget"@,
                VestaError::InvalidWidgetConfig { .. } => "Invalid widget configuration"@,
                VestaError::Internal(_) => "Internal server error"@,
            },
    {
        match self {
            VestaError::Config(_) => "Configuration error",
            VestaError::Http(_) => "External service error",
            VestaError::ServiceNotFound { .. } => "Service not found",
            VestaError::WidgetNotFound { .. } => "Widget not found",
            VestaError::MissingWidgetConfig { .. } => "Missing widget configuration",
            VestaError::MissingCredentials { .. } => "Missing credentials",
            VestaError::ApiError { .. } => "API error",
            VestaError::UnknownWidget { .. } => "Unknown widget",
            VestaError::InvalidWidgetConfig { .. } => "Invalid widget configuration",
            VestaError::Internal(_) => "Internal server error",
        }
    }

    /// Builds a missing-credentials error naming `field`.
    pub fn missing_credentials(field: &str) -> (r: VestaError)
        ensures
            r.is_missing_credentials(field@),
    {
        VestaError::MissingCredentials { field: String::from_str(field) }
    }

    /// Whether this is a failed lookup of a service or widget by group and title.
    pub open spec fn is_not_found(self) -> bool {
        self is ServiceNotFound || self is WidgetNotFound
    }
}

} // verus!
