//! Configuration store and widget plugin system of a self-hosted status
//! dashboard: the configuration model, the widget registry, the
//! configuration manager and the widgets' own rules.

pub mod api;
pub mod config;
pub mod config_manager;
pub mod error;
pub mod http_client;
pub mod markup;
pub mod ping;
pub mod response;
pub mod text;
pub mod widget_system;
pub mod widgets;
