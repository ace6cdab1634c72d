//! The episode calendar of a Sonarr server as a widget.

use crate::config::{Dashboard, Service, Widget};
use crate::widget_system::WidgetQuery;
use crate::error::VestaError;
use crate::widgets::sonarr_calendar::{
    end_fits, entry_class, episode_label, has_credentials, plus_minutes, CalendarEntry,
};
use crate::widgets::{container, loader, make_loader, widget_container, WidgetHandler};
use crate::config::settings_of;
use vstd::prelude::*;

verus! {

pub struct SonarrCalendarWidget;

impl SonarrCalendarWidget {
    pub fn new() -> Self {
        SonarrCalendarWidget
    }

    /// The URL and API key of the calendar settings of `widget_info`.
    pub fn get_widget_credentials<'a>(&self, widget_info: &'a Widget) -> (r: Result<(&'a str, &'a str), VestaError>)
        ensures
            match r {
                Ok((url, key)) => has_credentials(*widget_info)
                    && url@ == settings_of(widget_info.config->Some_0)["url"@]
                    && key@ == settings_of(widget_info.config->Some_0)["key"@],
                Err(e) => !has_credentials(*widget_info) && e.is_missing_credentials("url or key"@),
            },
    {
        crate::widgets::sonarr_calendar::get_widget_credentials(widget_info)
    }

    /// The server URL and API key of the calendar widget that `query` names.
    pub fn calendar_credentials<'a>(&self, config: &'a Dashboard, query: &WidgetQuery) -> (r: Result<(&'a str, &'a str), VestaError>)
        ensures
            match config.widget_spec(query.group@, query.title@) {
                Some(w) => match r {
                    Ok((url, key)) => has_credentials(w) && url@ == settings_of(w.config->Some_0)["url"@]
                        && key@ == settings_of(w.config->Some_0)["key"@],
                    Err(e) => !has_credentials(w) && e.is_missing_credentials("url or key"@),
                },
                None => match r {
                    Err(VestaError::WidgetNotFound { group, title }) => group@ == query.group@ && title@ == query.title@,
                    _ => false,
                },
            },
    {
        match config.get_widget(query.group.as_str(), query.title.as_str()) {
            Some(w) => self.get_widget_credentials(w),
            None => Err(VestaError::WidgetNotFound { group: query.group.clone(), title: query.title.clone() }),
        }
    }

    /// The instant `minutes` minutes after `date`.
    pub fn add_minutes(&self, date: i64, minutes: i64) -> (r: i64)
        requires
            i64::MIN <= plus_minutes(date as int, minutes as int) <= i64::MAX,
        ensures
            r == plus_minutes(date as int, minutes as int),
    {
        crate::widgets::sonarr_calendar::add_minutes(date, minutes)
    }

    /// The label of an episode, such as `3x07`.
    pub fn format_episode(&self, entry: &CalendarEntry) -> (r: String)
        ensures
            r@ == episode_label(*entry),
    {
        crate::widgets::sonarr_calendar::format_episode(entry)
    }

    /// The page of a series on the Sonarr server at `sonarr_url`.
    pub fn format_series_url(&self, sonarr_url: &str, title_slug: &str) -> (r: String)
        ensures
            r@ == sonarr_url@ + "/series/"@ + title_slug@,
    {
        crate::widgets::sonarr_calendar::format_series_url(sonarr_url, title_slug)
    }

    /// The state of an episode at instant `current_date`.
    pub fn get_entry_class(&self, entry: &CalendarEntry, current_date: i64) -> (r: &'static str)
        requires
            end_fits(*entry),
        ensures
            r@ == entry_class(*entry, current_date as int),
    {
        crate::widgets::sonarr_calendar::get_entry_class(entry, current_date)
    }
}

/// The placeholder of the calendar of `service` in group `group_id`.
pub open spec fn sonarr_placeholder(group_id: Seq<char>, service: Service) -> Seq<char> {
    container(
        service.width,
        service.height,
        "overflow-y-auto text-xs py-2 flex flex-col"@,
        loader("SonarrCalendar"@, group_id, service.title@, "load"@),
    )
}

impl WidgetHandler for SonarrCalendarWidget {
    open spec fn spec_name(&self) -> Seq<char> {
        "SonarrCalendar"@
    }

    open spec fn accepts(&self, w: Widget) -> bool {
        has_credentials(w)
    }

    /// Missing credentials, naming the first of `config`, `url` and `key`
    /// that is absent.
    open spec fn rejection(&self, w: Widget, e: VestaError) -> bool {
        match w.config {
            None => e.is_missing_credentials("config"@),
            Some(c) => if !settings_of(c).contains_key("url"@) {
                e.is_missing_credentials("url"@)
            } else {
                e.is_missing_credentials("key"@)
            },
        }
    }

    open spec fn renders(&self, group_id: Seq<char>, service: Service, out: Seq<char>) -> bool {
        out == sonarr_placeholder(group_id, service)
    }

    fn name(&self) -> (r: &'static str) {
        "SonarrCalendar"
    }

    fn render(&self, group_id: &str, service: &Service) -> (r: String) {
        let inner = make_loader(self.name(), group_id, service.title.as_str(), "load");
        widget_container(service.width, service.height, "overflow-y-auto text-xs py-2 flex flex-col", inner.as_str())
    }

    /// Asks for settings with a server URL (`url`) and an API key (`key`).
    fn validate_config(&self, widget: &Widget) -> (r: Result<(), VestaError>) {
        let config = match &widget.config {
            Some(c) => c,
            None => {
                return Err(VestaError::missing_credentials("config"));
            },
        };
        if crate::config::setting(config, "url").is_none() {
            return Err(VestaError::missing_credentials("url"));
        }
        if crate::config::setting(config, "key").is_none() {
            return Err(VestaError::missing_credentials("key"));
        }
        Ok(())
    }
}

} // verus!
