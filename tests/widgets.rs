use indexmap::IndexMap;
use std::collections::HashMap;
use vesta::config::{Dashboard, Group, Service, Widget};
use vesta::widget_system::WidgetQuery;
use vesta::error::{ConfigError, VestaError};
use vesta::http_client::{api_client_settings, ping_client_settings, HttpClientBuilder};
use vesta::response::jsend;
use vesta::response::{from_error, status_of, JSendResponse, ResponseData};
use vesta::text::{decimal2_string, decimal_string, escape_html, parse_u64, starts_with};
use vesta::widget_system::{WidgetKind, WidgetRegistry};
use vesta::widgets::clock_widget::{ClockTexts, ClockWidget};
use vesta::widgets::quick_links_widget::QuickLinksWidget;
use vesta::widgets::sonarr_calendar::{
    add_minutes, downloading_series, end_representable, entry_class_at, format_episode, format_series_url, get_entry_class, group_by_day,
    mark_downloading, render_sonarr_calendar_widget, CalendarEntry, DownloadQueue, DownloadRecord, Series,
};
use vesta::widgets::sonarr_calendar_widget::SonarrCalendarWidget;
use vesta::widgets::system_stats_widget::{default_refresh_interval, SystemStatsWidget};
use vesta::widgets::weather_widget::{default_units, WeatherWidget};
use vesta::widgets::{grid_span_classes, widget_container, WidgetHandler};

fn settings(pairs: &[(&str, &str)]) -> HashMap<String, String> {
    pairs.iter().map(|(k, v)| (k.to_string(), v.to_string())).collect()
}

fn widget(name: &str, pairs: &[(&str, &str)]) -> Widget {
    Widget { name: name.to_string(), config: Some(settings(pairs)) }
}

fn service_with(title: &str, w: Option<Widget>) -> Service {
    Service { title: title.to_string(), href: None, img_src: None, width: None, height: None, widget: w, ping: None }
}

#[test]
fn quick_links_single_link() {
    let links = QuickLinksWidget::new()
        .parse_config(&settings(&[("link_0_title", "Home"), ("link_0_url", "http://x")]))
        .unwrap();
    assert_eq!(links.len(), 1);
    assert_eq!(links[0].title, "Home");
    assert_eq!(links[0].url, "http://x");
    assert!(links[0].icon.is_none());
}

#[test]
fn quick_links_title_without_url_is_rejected() {
    let w = widget("QuickLinks", &[("link_0_title", "Home")]);
    assert!(QuickLinksWidget::new().validate_config(&w).is_err());
    let err = QuickLinksWidget::new().parse_config(&settings(&[("link_0_title", "Home")])).unwrap_err();
    assert!(matches!(err, VestaError::Internal(m) if m == "No links configured for QuickLinks widget"));
}

#[test]
fn quick_links_stop_at_first_gap() {
    let links = QuickLinksWidget::new()
        .parse_config(&settings(&[
            ("link_0_title", "A"),
            ("link_0_url", "http://a"),
            ("link_0_icon", "a.png"),
            ("link_1_title", "B"),
            ("link_1_url", "https://b"),
            ("link_3_title", "D"),
            ("link_3_url", "http://d"),
        ]))
        .unwrap();
    assert_eq!(links.len(), 2);
    assert_eq!(links[0].icon.as_deref(), Some("a.png"));
    assert_eq!(links[1].url, "https://b");
}

#[test]
fn quick_links_urls_must_be_web_urls() {
    let ok = widget("QuickLinks", &[("link_0_title", "A"), ("link_0_url", "https://a")]);
    assert!(QuickLinksWidget::new().validate_config(&ok).is_ok());
    let bad = widget(
        "QuickLinks",
        &[("link_0_title", "A"), ("link_0_url", "https://a"), ("link_1_url", "ftp://b")],
    );
    match QuickLinksWidget::new().validate_config(&bad) {
        Err(VestaError::Internal(m)) => {
            assert_eq!(m, "Invalid URL for link_1: URLs must start with http:// or https://")
        }
        other => panic!("unexpected {:?}", other),
    }
    let none = Widget { name: "QuickLinks".to_string(), config: None };
    assert!(QuickLinksWidget::new().validate_config(&none).is_err());
}

fn one_group(services: Vec<Service>) -> Dashboard {
    let mut m = IndexMap::new();
    m.insert("g".to_string(), Group { name: "G".to_string(), columns: 2, services });
    Dashboard { groups: m }
}

fn query(group: &str, title: &str) -> WidgetQuery {
    WidgetQuery { group: group.to_string(), title: title.to_string() }
}

#[test]
fn quick_links_for_service() {
    let w = widget("QuickLinks", &[("link_0_title", "A"), ("link_0_url", "http://a")]);
    let d = one_group(vec![service_with("Links", Some(w)), service_with("Bare", None)]);
    let q = QuickLinksWidget::new();
    assert_eq!(q.links_for(&d, &query("g", "Links")).unwrap().len(), 1);
    match q.links_for(&d, &query("g", "Nope")) {
        Err(VestaError::ServiceNotFound { group, title }) => assert_eq!((group.as_str(), title.as_str()), ("g", "Nope")),
        other => panic!("unexpected {:?}", other.map(|l| l.len())),
    }
    assert!(matches!(q.links_for(&d, &query("g", "Bare")), Err(VestaError::Internal(_))));
}

#[test]
fn unknown_widget_renders_visible_error_with_name() {
    let registry = WidgetRegistry::new().register(WidgetKind::Clock);
    let w = Widget { name: "Teleporter".to_string(), config: None };
    let s = service_with("T", Some(w.clone()));
    let out = registry.render_widget("g", &s, &w);
    assert!(out.contains("Unknown widget: Teleporter"));
    let w2 = Widget { name: "<b>".to_string(), config: None };
    let out2 = registry.render_widget("g", &s, &w2);
    assert!(out2.contains("Unknown widget: &lt;b&gt;"));
}

#[test]
fn dispatch_unknown_widget_is_not_a_lookup_failure() {
    let registry = WidgetRegistry::new().register(WidgetKind::SonarrCalendar);
    match registry.dispatch("Teleporter") {
        Err(VestaError::UnknownWidget { widget, service }) => {
            assert_eq!(widget, "Teleporter");
            assert!(service.is_none());
        }
        other => panic!("unexpected {:?}", other),
    }
    assert_eq!(registry.dispatch("SonarrCalendar").unwrap(), WidgetKind::SonarrCalendar);
    assert!(registry.dispatch("Clock").is_err());
}

#[test]
fn registry_lists_and_finds_plugins() {
    let registry = WidgetRegistry::new().register(WidgetKind::Weather).register(WidgetKind::Clock).register(WidgetKind::Clock);
    let mut names = registry.get_registered_widgets();
    names.sort();
    assert_eq!(names, vec!["Clock", "Weather"]);
    assert_eq!(registry.get("Weather"), Some(WidgetKind::Weather));
    assert_eq!(registry.get("QuickLinks"), None);
    assert!(WidgetRegistry::new().get_registered_widgets().is_empty());
}

#[test]
fn sonarr_placeholder_loads_from_widget_endpoint() {
    let registry = WidgetRegistry::new().register(WidgetKind::SonarrCalendar);
    let w = widget("SonarrCalendar", &[("url", "u"), ("key", "k")]);
    let mut s = service_with("Son arr", Some(w.clone()));
    s.width = Some(2);
    let out = registry.render_widget("media", &s, &w);
    assert_eq!(
        out,
        "<div class=\"bg-zinc-900 border border-zinc-800 rounded-lg p-4 h-full col-span-2 overflow-y-auto text-xs py-2 flex flex-col\"><div class=\"h-full\" hx-get=\"/api/widgets/SonarrCalendar?group=media&amp;title=Son arr\" hx-trigger=\"load\" hx-swap=\"innerHTML\"><div class=\"flex items-center justify-center h-full\"><div class=\"animate-spin rounded-full h-8 w-8 border-b-2 border-blue-500\"></div></div></div></div>"
    );
}

#[test]
fn stats_and_weather_placeholders_refresh() {
    let w = widget("SystemStats", &[("refresh_interval", "30")]);
    let s = service_with("Host", Some(w));
    let out = SystemStatsWidget::new().render("g", &s);
    assert!(out.contains("hx-trigger=\"load, every 30s\""));
    let plain = service_with("Host", None);
    assert!(SystemStatsWidget::new().render("g", &plain).contains("every 5s"));
    let ww = widget("Weather", &[("latitude", "1"), ("longitude", "2")]);
    let mut ws = service_with("Sky", Some(ww));
    ws.height = Some(2);
    let out = WeatherWidget::new().render("g", &ws);
    assert!(out.contains("every 600s"));
    assert!(out.contains("style=\"grid-column: span 1 / span 1; grid-row: span 2 / span 2;\""));
    let q = QuickLinksWidget::new().render("g", &ws);
    assert!(q.contains("hx-get=\"/api/widgets/QuickLinks?group=g&amp;title=Sky\""));
}

#[test]
fn clock_fragment_shows_given_texts() {
    let mut s = service_with("Time", None);
    s.width = Some(3);
    let t = ClockTexts {
        time: "12:00:00".to_string(),
        date: "Monday, January 01".to_string(),
        year: "2024".to_string(),
        zone: "UTC".to_string(),
        utc: "12:00:00".to_string(),
    };
    let out = ClockWidget::new().render_at(&s, &t);
    assert!(out.starts_with("<div class=\"bg-slate-900 border border-slate-800 rounded-xl p-4 h-full flex flex-col justify-center sm:col-span-3\" style=\"grid-row: span 1 / span 1;\">"));
    assert!(out.contains(">Monday, January 01<"));
    assert!(out.contains("UTC: 12:00:00"));
    assert!(ClockWidget::new().render("g", &s).contains("data-clock-time"));
    assert_eq!(
        ClockWidget::new().live_fragment(&t),
        "<div class=\"text-center space-y-2\"><div class=\"text-4xl font-mono font-bold text-white\">12:00:00</div><div class=\"text-lg text-gray-300\">Monday, January 01</div><div class=\"text-sm text-gray-400 space-y-1\"><div>2024</div><div>UTC</div></div><div class=\"text-xs text-gray-500 pt-2 border-t border-slate-800\">UTC: 12:00:00</div></div>"
    );
    assert_eq!(ClockWidget::new().name(), "Clock");
}

#[test]
fn system_stats_interval_rules() {
    let stats = SystemStatsWidget::new();
    assert!(stats.validate_config(&Widget { name: "SystemStats".to_string(), config: None }).is_ok());
    assert!(stats.validate_config(&widget("SystemStats", &[("refresh_interval", "3600")])).is_ok());
    assert!(stats.validate_config(&widget("SystemStats", &[("refresh_interval", "0")])).is_err());
    assert!(stats.validate_config(&widget("SystemStats", &[("refresh_interval", "soon")])).is_err());
    assert_eq!(default_refresh_interval(), 5);
}

#[test]
fn weather_settings_rules() {
    let weather = WeatherWidget::new();
    assert!(weather.validate_config(&widget("Weather", &[("latitude", "1"), ("longitude", "2")])).is_ok());
    assert!(weather.validate_config(&widget("Weather", &[("latitude", "1")])).is_err());
    assert!(weather
        .validate_config(&widget("Weather", &[("latitude", "1"), ("longitude", "2"), ("units", "kelvin")]))
        .is_err());
    assert!(weather
        .validate_config(&widget("Weather", &[("latitude", "1"), ("longitude", "2"), ("refresh_interval", "59")]))
        .is_err());
    assert!(weather
        .validate_config(&widget(
            "Weather",
            &[("latitude", "1"), ("longitude", "2"), ("units", "fahrenheit"), ("refresh_interval", "60")]
        ))
        .is_ok());
    assert_eq!(default_units(), "celsius");
}

#[test]
fn weather_tables() {
    let w = WeatherWidget::new();
    assert_eq!(w.get_temperature_unit("fahrenheit"), "°F");
    assert_eq!(w.get_temperature_unit("celsius"), "°C");
    assert_eq!(w.get_weather_description(0), "Clear sky");
    assert_eq!(w.get_weather_description(48), "Fog");
    assert_eq!(w.get_weather_description(99), "Thunderstorm with hail");
    assert_eq!(w.get_weather_description(4), "Unknown");
    assert_eq!(w.get_weather_icon(3), "☁️");
    assert_eq!(w.get_weather_icon(1000), "🌍");
    assert_eq!(w.get_wind_direction(0), "N");
    assert_eq!(w.get_wind_direction(45), "NE");
    assert_eq!(w.get_wind_direction(180), "S");
    assert_eq!(w.get_wind_direction(300), "NW");
    assert_eq!(w.get_wind_direction(350), "N");
    assert_eq!(w.get_wind_direction(400), "N");
    let d = one_group(vec![service_with("Sky", Some(widget("Weather", &[("units", "fahrenheit")])))]);
    let cfg = w.settings_for(&d, &query("g", "Sky")).unwrap();
    assert_eq!(w.units_of(cfg), "fahrenheit");
    assert_eq!(w.units_of(&HashMap::new()), "celsius");
    match w.settings_for(&d, &query("x", "Sky")) {
        Err(VestaError::ServiceNotFound { group, title }) => assert_eq!((group.as_str(), title.as_str()), ("x", "Sky")),
        other => panic!("unexpected {:?}", other.map(|c| c.len())),
    }
}

fn entry(series_id: u32, air: i64, runtime: i64, has_file: bool) -> CalendarEntry {
    CalendarEntry {
        series_id,
        season_number: 3,
        episode_number: 7,
        title: None,
        air_date_utc: air,
        series: Series { title: "Show".to_string(), title_slug: "show".to_string(), runtime },
        has_file,
        monitored: true,
        is_downloading: false,
    }
}

#[test]
fn episode_states() {
    let e = entry(1, 1000, 30, false);
    assert_eq!(get_entry_class(&e, 999), "unaired");
    assert_eq!(get_entry_class(&e, 1000), "airing");
    assert_eq!(get_entry_class(&e, 1000 + 30 * 60), "airing");
    assert_eq!(get_entry_class(&e, 1001 + 30 * 60), "missing");
    let f = entry(1, 1000, 30, true);
    assert_eq!(get_entry_class(&f, 5000), "downloaded");
    let mut d = entry(1, 1000, 30, true);
    d.is_downloading = true;
    assert_eq!(get_entry_class(&d, 5000), "downloading");
    assert_eq!(SonarrCalendarWidget::new().get_entry_class(&e, 999), "unaired");
    assert_eq!(add_minutes(100, 2), 220);
    assert_eq!(add_minutes(100, -1), 40);
    assert!(end_representable(&e));
    assert_eq!(entry_class_at(&e, 999), "unaired");
    let far = entry(1, i64::MAX - 10, 1, false);
    assert!(!end_representable(&far));
    assert_eq!(entry_class_at(&far, 0), "");
}

#[test]
fn episode_labels_and_links() {
    assert_eq!(format_episode(&entry(1, 0, 0, false)), "3x07");
    let mut e = entry(1, 0, 0, false);
    e.season_number = 12;
    e.episode_number = 123;
    assert_eq!(format_episode(&e), "12x123");
    assert_eq!(format_series_url("http://sonarr", "my-show"), "http://sonarr/series/my-show");
    assert_eq!(SonarrCalendarWidget::new().format_series_url("u", "s"), "u/series/s");
}

#[test]
fn downloads_mark_entries() {
    let queue = DownloadQueue { records: vec![DownloadRecord { series_id: 2 }, DownloadRecord { series_id: 5 }] };
    let ids = downloading_series(&queue);
    let mut cal = vec![entry(1, 0, 0, false), entry(2, 0, 0, false), entry(5, 0, 0, false)];
    cal[0].is_downloading = true;
    mark_downloading(&mut cal, &ids);
    assert_eq!(cal.iter().map(|e| e.is_downloading).collect::<Vec<_>>(), vec![false, true, true]);
}

#[test]
fn entries_grouped_by_day_in_order() {
    let days: Vec<String> = ["2024-01-02", "2024-01-01", "2024-01-02", "2024-01-03"].iter().map(|s| s.to_string()).collect();
    let groups = group_by_day(&days);
    assert_eq!(groups.len(), 3);
    let (d0, p0) = groups.get_index(0).unwrap();
    assert_eq!((d0.as_str(), p0.clone()), ("2024-01-02", vec![0, 2]));
    assert_eq!(groups.get_index(1).unwrap().1, &vec![1]);
    assert_eq!(groups.get_index(2).unwrap().0, "2024-01-03");
    assert!(group_by_day(&Vec::new()).is_empty());
}

#[test]
fn sonarr_credentials() {
    let s = SonarrCalendarWidget::new();
    let w = widget("SonarrCalendar", &[("url", "http://s"), ("key", "abc")]);
    assert_eq!(s.get_widget_credentials(&w).unwrap(), ("http://s", "abc"));
    let partial = widget("SonarrCalendar", &[("url", "http://s")]);
    match s.get_widget_credentials(&partial) {
        Err(VestaError::MissingCredentials { field }) => assert_eq!(field, "url or key"),
        other => panic!("unexpected {:?}", other),
    }
    let none = Widget { name: "SonarrCalendar".to_string(), config: None };
    match s.validate_config(&none) {
        Err(VestaError::MissingCredentials { field }) => assert_eq!(field, "config"),
        other => panic!("unexpected {:?}", other),
    }
}

#[test]
fn calendar_tile_height() {
    let mut s = service_with("Cal", None);
    s.height = Some(2);
    let out = render_sonarr_calendar_widget("media", &s);
    assert!(out.contains("col-span-1 row-span-2"));
    assert!(out.contains("style=\"height: 13rem;\""));
    assert!(out.contains("hx-get=\"/api/sonarr-calendar?group=media&amp;title=Cal\""));
}

#[test]
fn grid_classes_and_container() {
    assert_eq!(grid_span_classes(1, 1), "");
    assert_eq!(grid_span_classes(2, 3), " col-span-2 row-span-3");
    assert_eq!(grid_span_classes(1, 12), " row-span-12");
    assert_eq!(
        widget_container(Some(2), None, "x", "<p>hi</p>"),
        "<div class=\"bg-zinc-900 border border-zinc-800 rounded-lg p-4 h-full col-span-2 x\"><p>hi</p></div>"
    );
}

#[test]
fn text_helpers() {
    assert_eq!(decimal_string(0), "0");
    assert_eq!(decimal_string(1234567890), "1234567890");
    assert_eq!(decimal_string(u64::MAX), "18446744073709551615");
    assert_eq!(decimal2_string(7), "07");
    assert_eq!(decimal2_string(42), "42");
    assert_eq!(escape_html("a&b<c>\"d'"), "a&amp;b&lt;c&gt;&quot;d'");
    assert_eq!(escape_html("plain"), "plain");
    assert_eq!(parse_u64("42"), Some(42));
    assert_eq!(parse_u64("+7"), Some(7));
    assert_eq!(parse_u64("-1"), None);
    assert_eq!(parse_u64(""), None);
    assert_eq!(parse_u64("18446744073709551616"), None);
    assert!(starts_with("https://x", "https://"));
    assert!(!starts_with("http", "https://"));
}

#[test]
fn error_texts_and_statuses() {
    let e = VestaError::ServiceNotFound { group: "g".to_string(), title: "t".to_string() };
    assert_eq!(e.message(), "Service not found: group='g', title='t'");
    assert_eq!(e.status_code(), 404);
    let nested = VestaError::InvalidWidgetConfig {
        widget: "SonarrCalendar".to_string(),
        service: "Sonarr".to_string(),
        cause: Box::new(VestaError::MissingCredentials { field: "url".to_string() }),
    };
    assert_eq!(nested.message(), "Widget 'SonarrCalendar' validation failed for service 'Sonarr': Missing credentials: url");
    let unknown = VestaError::UnknownWidget { widget: "X".to_string(), service: Some("S".to_string()) };
    assert_eq!(unknown.message(), "Unknown widget 'X' in service 'S'");
    let cfg = VestaError::Config(ConfigError::IoError("gone".to_string()));
    assert_eq!(cfg.message(), "Configuration error: Failed to read config file: gone");
    assert_eq!(cfg.status_code(), 500);
    let api = VestaError::ApiError { status: 503, message: "down".to_string() };
    assert_eq!(api.message(), "API error: 503 - down");
    assert_eq!(api.status_code(), 503);
    assert_eq!(VestaError::Http("x".to_string()).summary(), "External service error");
}

#[test]
fn jsend_envelopes() {
    let r: JSendResponse<u32> = JSendResponse::success(3);
    assert!(r.is_success() && !r.is_fail() && !r.is_error());
    assert_eq!(status_of(&r), 200);
    assert!(jsend::fail(1u8).is_fail());
    match jsend::error_not_found("Widget") {
        JSendResponse::Error { message, code, data } => {
            assert_eq!(message, "Widget not found");
            assert_eq!(code, Some(404));
            assert!(data.is_none());
        }
        _ => panic!("not an error"),
    }
    assert!(matches!(jsend::error_unauthorized(), JSendResponse::Error { code: Some(401), .. }));
    assert!(matches!(jsend::error_forbidden(), JSendResponse::Error { code: Some(403), .. }));
    assert!(matches!(jsend::error_internal("x"), JSendResponse::Error { code: Some(500), .. }));
    assert!(matches!(jsend::success_empty(), JSendResponse::Success { data: ResponseData::Empty }));
    let r = from_error(VestaError::MissingCredentials { field: "key".to_string() });
    assert!(r.is_fail());
    assert_eq!(status_of(&r), 400);
    let r = from_error(VestaError::WidgetNotFound { group: "g".to_string(), title: "t".to_string() });
    match r {
        JSendResponse::Error { message, code, data: Some(ResponseData::Lookup { group, title }) } => {
            assert_eq!(message, "Widget not found: group='g', title='t'");
            assert_eq!(code, Some(404));
            assert_eq!((group.as_str(), title.as_str()), ("g", "t"));
        }
        _ => panic!("unexpected envelope"),
    }
    let r = from_error(VestaError::ApiError { status: 502, message: "bad".to_string() });
    assert!(matches!(r, JSendResponse::Error { message, code: Some(502), .. } if message == "API error: bad"));
}

#[test]
fn sonarr_checks_in_order() {
    let s = SonarrCalendarWidget::new();
    let cases: [(&[(&str, &str)], &str); 3] = [(&[], "url"), (&[("key", "k")], "url"), (&[("url", "u")], "key")];
    for (pairs, field) in cases {
        match s.validate_config(&widget("SonarrCalendar", pairs)) {
            Err(VestaError::MissingCredentials { field: f }) => assert_eq!(f, field),
            other => panic!("unexpected {:?}", other),
        }
    }
    assert!(s.validate_config(&widget("SonarrCalendar", &[("url", "u"), ("key", "k")])).is_ok());
}

#[test]
fn http_client_settings() {
    let b = HttpClientBuilder::new();
    assert!(b.accept_invalid_certs);
    assert_eq!((b.timeout_secs, b.connect_timeout_secs, b.pool_idle_timeout_secs), (30, 10, 30));
    assert_eq!(b.pool_max_idle_per_host, 10);
    let api = api_client_settings();
    assert!(!api.accept_invalid_certs);
    assert_eq!((api.timeout_secs, api.connect_timeout_secs), (60, 15));
    let ping = ping_client_settings();
    assert_eq!(ping.pool_max_idle_per_host, 5);
    assert_eq!((ping.timeout_secs, ping.connect_timeout_secs), (5, 3));
    let b = HttpClientBuilder::new().pool_idle_timeout(1).pool_max_idle_per_host(2);
    assert_eq!(b.pool_idle_timeout_secs, 1);
    assert_eq!(b.pool_max_idle_per_host, 2);
}
