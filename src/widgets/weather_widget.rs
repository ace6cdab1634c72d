//! Current weather from the Open-Meteo service, as a widget. Coordinates are
//! decimal numbers; reading and range-checking them is left to the host,
//! which holds them as floating-point values.

use crate::config::{setting, settings_of, Dashboard, Service, Widget};
use crate::widget_system::WidgetQuery;
use std::collections::HashMap;
use crate::error::VestaError;
use crate::markup::{attr, make_span_style, push_attr, push_spinner, span_of, span_style, spinner, widget_url};
use crate::text::{parse_u64, u64_text};
use crate::widgets::{every, make_every, refresh_interval_of, refresh_setting, WidgetHandler};
use vstd::prelude::*;

verus! {

/// The unit of temperature where the settings name none.
pub fn default_units() -> (r: String)
    ensures
        r@ == "celsius"@,
{
    String::from_str("celsius")
}

/// Seconds between two refreshes where the settings name none.
pub fn default_refresh_interval() -> (r: u64)
    ensures
        r == 600,
{
    600
}

/// The symbol of the unit of temperature named `units`.
pub open spec fn temperature_symbol(units: Seq<char>) -> Seq<char> {
    if units == "fahrenheit"@ { "°F"@ } else { "°C"@ }
}

/// The description of a WMO weather code.
pub open spec fn weather_description(code: u32) -> Seq<char> {
    if code == 0 { "Clear sky"@ }
    else if code == 1 { "Mainly clear"@ }
    else if code == 2 { "Partly cloudy"@ }
    else if code == 3 { "Overcast"@ }
    else if code == 45 || code == 48 { "Fog"@ }
    else if code == 51 || code == 53 || code == 55 { "Drizzle"@ }
    else if code == 56 || code == 57 { "Freezing drizzle"@ }
    else if code == 61 || code == 63 || code == 65 { "Rain"@ }
    else if code == 66 || code == 67 { "Freezing rain"@ }
    else if code == 71 || code == 73 || code == 75 { "Snow"@ }
    else if code == 77 { "Snow grains"@ }
    else if code == 80 || code == 81 || code == 82 { "Rain showers"@ }
    else if code == 85 || code == 86 { "Snow showers"@ }
    else if code == 95 { "Thunderstorm"@ }
    else if code == 96 || code == 99 { "Thunderstorm with hail"@ }
    else { "Unknown"@ }
}

/// The icon of a WMO weather code.
pub open spec fn weather_icon(code: u32) -> Seq<char> {
    if code == 0 { "☀️"@ }
    else if code == 1 { "🌤️"@ }
    else if code == 2 { "⛅"@ }
    else if code == 3 { "☁️"@ }
    else if code == 45 || code == 48 { "🌫️"@ }
    else if code == 51 || code == 53 || code == 55 { "🌦️"@ }
    else if code == 56 || code == 57 || code == 61 || code == 63 || code == 65 || code == 66 || code == 67 { "🌧️"@ }
    else if code == 71 || code == 73 || code == 75 || code == 77 { "🌨️"@ }
    else if code == 80 || code == 81 || code == 82 { "🌦️"@ }
    else if code == 85 || code == 86 { "🌨️"@ }
    else if code == 95 || code == 96 || code == 99 { "⛈️"@ }
    else { "🌍"@ }
}

/// The compass point nearest to a wind direction in degrees; `N` for
/// degrees beyond 360.
pub open spec fn compass_point(degrees: u32) -> Seq<char> {
    if degrees <= 22 || (338 <= degrees && degrees <= 360) { "N"@ }
    else if degrees <= 67 { "NE"@ }
    else if degrees <= 112 { "E"@ }
    else if degrees <= 157 { "SE"@ }
    else if degrees <= 202 { "S"@ }
    else if degrees <= 247 { "SW"@ }
    else if degrees <= 292 { "W"@ }
    else if degrees <= 337 { "NW"@ }
    else { "N"@ }
}

/// Whether the settings of `w` are acceptable, coordinates aside: both
/// coordinates given, units (where given) `celsius` or `fahrenheit`, and a
/// refresh interval (where given) from 60 to 3600 seconds.
pub open spec fn weather_accept(w: Widget) -> bool {
    match w.config {
        Some(c) => {
            let m = settings_of(c);
            &&& m.contains_key("latitude"@)
            &&& m.contains_key("longitude"@)
            &&& m.contains_key("units"@) ==> (m["units"@] == "celsius"@ || m["units"@] == "fahrenheit"@)
            &&& m.contains_key("refresh_interval"@) ==> match u64_text(m["refresh_interval"@]) {
                Some(v) => 60 <= v <= 3600,
                None => false,
            }
        },
        None => false,
    }
}

/// The placeholder of the weather tile of `service` in group `group_id`.
pub open spec fn weather_placeholder(group_id: Seq<char>, service: Service) -> Seq<char> {
    "<div class=\"bg-slate-900 border border-slate-800 rounded-xl p-4 h-full\""@
        + attr("style"@, span_style(span_of(service.width), span_of(service.height)))
        + attr("hx-get"@, widget_url("Weather"@, group_id, service.title@))
        + attr("hx-trigger"@, every(refresh_setting(service, 600) as nat))
        + " hx-swap=\"innerHTML\">"@ + spinner() + "</div>"@
}

pub struct WeatherWidget;

impl WeatherWidget {
    pub fn new() -> Self {
        WeatherWidget
    }

    /// The settings of the widget of the service that `query` names in
    /// `config`; a service-not-found error where there is no such service.
    pub fn settings_for<'a>(&self, config: &'a Dashboard, query: &WidgetQuery) -> (r: Result<&'a HashMap<String, String>, VestaError>)
        ensures
            match config.service_spec(query.group@, query.title@) {
                None => match r {
                    Err(VestaError::ServiceNotFound { group, title }) => group@ == query.group@ && title@ == query.title@,
                    _ => false,
                },
                Some(s) => match s.widget {
                    Some(w) => match w.config {
                        Some(c) => r == Ok::<&HashMap<String, String>, VestaError>(&c),
                        None => r is Err && r->Err_0.is_internal("Weather widget config not found"@),
                    },
                    None => r is Err && r->Err_0.is_internal("Weather widget config not found"@),
                },
            },
    {
        let service = match config.get_service(query.group.as_str(), query.title.as_str()) {
            Some(s) => s,
            None => {
                return Err(VestaError::ServiceNotFound { group: query.group.clone(), title: query.title.clone() });
            },
        };
        match &service.widget {
            Some(w) => match &w.config {
                Some(c) => Ok(c),
                None => Err(VestaError::internal("Weather widget config not found")),
            },
            None => Err(VestaError::internal("Weather widget config not found")),
        }
    }

    /// The unit of temperature that the settings name, `celsius` where they
    /// name none.
    pub fn units_of(&self, config: &HashMap<String, String>) -> (r: String)
        ensures
            r@ == if settings_of(*config).contains_key("units"@) { settings_of(*config)["units"@] } else { "celsius"@ },
    {
        match setting(config, "units") {
            Some(u) => u.clone(),
            None => default_units(),
        }
    }

    /// The symbol of the unit of temperature named `units`: Fahrenheit for
    /// `fahrenheit`, Celsius for anything else.
    pub fn get_temperature_unit(&self, units: &str) -> (r: &'static str)
        ensures
            r@ == temperature_symbol(units@),
    {
        if crate::config::str_eq(units, "fahrenheit") {
            "°F"
        } else {
            "°C"
        }
    }

    /// The description of a WMO weather code.
    pub fn get_weather_description(&self, weather_code: u32) -> (r: &'static str)
        ensures
            r@ == weather_description(weather_code),
    {
        match weather_code {
            0 => "Clear sky",
            1 => "Mainly clear",
            2 => "Partly cloudy",
            3 => "Overcast",
            45 | 48 => "Fog",
            51 | 53 | 55 => "Drizzle",
            56 | 57 => "Freezing drizzle",
            61 | 63 | 65 => "Rain",
            66 | 67 => "Freezing rain",
            71 | 73 | 75 => "Snow",
            77 => "Snow grains",
            80 | 81 | 82 => "Rain showers",
            85 | 86 => "Snow showers",
            95 => "Thunderstorm",
            96 | 99 => "Thunderstorm with hail",
            _ => "Unknown",
        }
    }

    /// The icon of a WMO weather code.
    pub fn get_weather_icon(&self, weather_code: u32) -> (r: &'static str)
        ensures
            r@ == weather_icon(weather_code),
    {
        match weather_code {
            0 => "☀️",
            1 => "🌤️",
            2 => "⛅",
            3 => "☁️",
            45 | 48 => "🌫️",
            51 | 53 | 55 => "🌦️",
            56 | 57 => "🌧️",
            61 | 63 | 65 => "🌧️",
            66 | 67 => "🌧️",
            71 | 73 | 75 => "🌨️",
            77 => "🌨️",
            80 | 81 | 82 => "🌦️",
            85 | 86 => "🌨️",
            95 => "⛈️",
            96 | 99 => "⛈️",
            _ => "🌍",
        }
    }

    /// The compass point nearest to a wind direction in degrees.
    pub fn get_wind_direction(&self, degrees: u32) -> (r: &'static str)
        ensures
            r@ == compass_point(degrees),
    {
        match degrees {
            0..=22 | 338..=360 => "N",
            23..=67 => "NE",
            68..=112 => "E",
            113..=157 => "SE",
            158..=202 => "S",
            203..=247 => "SW",
            248..=292 => "W",
            293..=337 => "NW",
            _ => "N",
        }
    }
}

impl WidgetHandler for WeatherWidget {
    open spec fn spec_name(&self) -> Seq<char> {
        "Weather"@
    }

    open spec fn accepts(&self, w: Widget) -> bool {
        weather_accept(w)
    }

    /// The first rule broken, in the order: settings given, latitude given,
    /// longitude given, units, refresh interval read as a number, its range.
    open spec fn rejection(&self, w: Widget, e: VestaError) -> bool {
        match w.config {
            None => e.is_internal("Weather widget requires config"@),
            Some(c) => {
                let m = settings_of(c);
                if !m.contains_key("latitude"@) {
                    e.is_internal("latitude is required"@)
                } else if !m.contains_key("longitude"@) {
                    e.is_internal("longitude is required"@)
                } else if m.contains_key("units"@) && m["units"@] != "celsius"@ && m["units"@] != "fahrenheit"@ {
                    e.is_internal("units must be 'celsius' or 'fahrenheit'"@)
                } else if u64_text(m["refresh_interval"@]) is None {
                    e.is_internal("refresh_interval must be a number"@)
                } else {
                    e.is_internal("refresh_interval must be between 60 and 3600 seconds"@)
                }
            },
        }
    }

    open spec fn renders(&self, group_id: Seq<char>, service: Service, out: Seq<char>) -> bool {
        out == weather_placeholder(group_id, service)
    }

    fn name(&self) -> (r: &'static str) {
        "Weather"
    }

    fn render(&self, group_id: &str, service: &Service) -> (r: String) {
        let interval = refresh_interval_of(service, default_refresh_interval());
        let width = crate::markup::span_value(service.width);
        let height = crate::markup::span_value(service.height);
        let style = make_span_style(width, height);
        let url = crate::markup::make_widget_url(self.name(), group_id, service.title.as_str());
        let trigger = make_every(interval);
        let mut s = String::from_str("<div class=\"bg-slate-900 border border-slate-800 rounded-xl p-4 h-full\"");
        push_attr(&mut s, "style", style.as_str());
        push_attr(&mut s, "hx-get", url.as_str());
        push_attr(&mut s, "hx-trigger", trigger.as_str());
        s.append(" hx-swap=\"innerHTML\">");
        push_spinner(&mut s);
        s.append("</div>");
        s
    }

    /// Checks the settings, coordinates aside (see the module's note).
    fn validate_config(&self, widget: &Widget) -> (r: Result<(), VestaError>) {
        let config = match &widget.config {
            Some(c) => c,
            None => {
                return Err(VestaError::internal("Weather widget requires config"));
            },
        };
        if setting(config, "latitude").is_none() {
            return Err(VestaError::internal("latitude is required"));
        }
        if setting(config, "longitude").is_none() {
            return Err(VestaError::internal("longitude is required"));
        }
        if let Some(units) = setting(config, "units") {
            if !crate::config::str_eq(units.as_str(), "celsius") && !crate::config::str_eq(units.as_str(), "fahrenheit") {
                return Err(VestaError::internal("units must be 'celsius' or 'fahrenheit'"));
            }
        }
        if let Some(interval) = setting(config, "refresh_interval") {
            match parse_u64(interval.as_str()) {
                Some(v) => {
                    if v < 60 || v > 3600 {
                        return Err(VestaError::internal("refresh_interval must be between 60 and 3600 seconds"));
                    }
                },
                None => {
                    return Err(VestaError::internal("refresh_interval must be a number"));
                },
            }
        }
        Ok(())
    }
}

} // verus!
