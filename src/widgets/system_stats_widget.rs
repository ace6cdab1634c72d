//! Processor, memory and disk use of the host, as a widget. Reading the
//! figures is the host's business; this module holds the widget's rules.

use crate::config::{setting, settings_of, Service, Widget};
use crate::error::VestaError;
use crate::text::{parse_u64, u64_text};
use crate::widgets::{
    container, every, loader, make_every, make_loader, refresh_interval_of, refresh_setting,
    widget_container, WidgetHandler,
};
use vstd::prelude::*;

verus! {

/// The widget's settings.
#[derive(Clone, Copy, Debug)]
pub struct SystemStatsConfig {
    /// Seconds between two refreshes.
    pub refresh_interval: u64,
}

/// Seconds between two refreshes where the settings name none.
pub fn default_refresh_interval() -> (r: u64)
    ensures
        r == 5,
{
    5
}

/// Whether the settings of `w` are acceptable: a refresh interval, where
/// there is one, is a number of seconds from 1 to 3600.
pub open spec fn stats_accept(w: Widget) -> bool {
    match w.config {
        Some(c) => settings_of(c).contains_key("refresh_interval"@) ==> match u64_text(settings_of(c)["refresh_interval"@]) {
            Some(v) => 1 <= v <= 3600,
            None => false,
        },
        None => true,
    }
}

/// The placeholder of the stats tile of `service` in group `group_id`.
pub open spec fn stats_placeholder(group_id: Seq<char>, service: Service) -> Seq<char> {
    container(
        service.width,
        service.height,
        "overflow-y-auto"@,
        loader("SystemStats"@, group_id, service.title@, every(refresh_setting(service, 5) as nat)),
    )
}

pub struct SystemStatsWidget;

impl SystemStatsWidget {
    pub fn new() -> Self {
        SystemStatsWidget
    }
}

impl WidgetHandler for SystemStatsWidget {
    open spec fn spec_name(&self) -> Seq<char> {
        "SystemStats"@
    }

    open spec fn accepts(&self, w: Widget) -> bool {
        stats_accept(w)
    }

    open spec fn rejection(&self, w: Widget, e: VestaError) -> bool {
        match w.config {
            Some(c) => match u64_text(settings_of(c)["refresh_interval"@]) {
                None => e.is_internal("refresh_interval must be a number"@),
                Some(_) => e.is_internal("refresh_interval must be between 1 and 3600 seconds"@),
            },
            None => false,
        }
    }

    open spec fn renders(&self, group_id: Seq<char>, service: Service, out: Seq<char>) -> bool {
        out == stats_placeholder(group_id, service)
    }

    fn name(&self) -> (r: &'static str) {
        "SystemStats"
    }

    fn render(&self, group_id: &str, service: &Service) -> (r: String) {
        let interval = refresh_interval_of(service, default_refresh_interval());
        let trigger = make_every(interval);
        let inner = make_loader(self.name(), group_id, service.title.as_str(), trigger.as_str());
        widget_container(service.width, service.height, "overflow-y-auto", inner.as_str())
    }

    fn validate_config(&self, widget: &Widget) -> (r: Result<(), VestaError>) {
        if let Some(config) = &widget.config {
            if let Some(interval) = setting(config, "refresh_interval") {
                match parse_u64(interval.as_str()) {
                    Some(v) => {
                        if v < 1 || v > 3600 {
                            return Err(VestaError::internal("refresh_interval must be between 1 and 3600 seconds"));
                        }
                    },
                    None => {
                        return Err(VestaError::internal("refresh_interval must be a number"));
                    },
                }
            }
        }
        Ok(())
    }
}

} // verus!
