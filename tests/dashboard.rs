use indexmap::IndexMap;
use std::collections::HashMap;
use vesta::api::{find_service, find_widget, list_services, ping_target, PingLookupError, ServiceQuery};
use vesta::config::{get_service_info, get_widget_info, Dashboard, Group, PingConfig, Service, Widget};
use vesta::config_manager::{compute_stats, ConfigChanges, ConfigManager, ConfigStats};
use vesta::error::{ConfigError, VestaError};
use vesta::widget_system::{WidgetKind, WidgetRegistry};

fn settings(pairs: &[(&str, &str)]) -> HashMap<String, String> {
    pairs.iter().map(|(k, v)| (k.to_string(), v.to_string())).collect()
}

fn service(title: &str) -> Service {
    Service {
        title: title.to_string(),
        href: None,
        img_src: None,
        width: None,
        height: None,
        widget: None,
        ping: None,
    }
}

fn widget_service(title: &str, widget: &str, config: Option<HashMap<String, String>>) -> Service {
    let mut s = service(title);
    s.widget = Some(Widget { name: widget.to_string(), config });
    s
}

fn group(name: &str, services: Vec<Service>) -> Group {
    Group { name: name.to_string(), columns: 3, services }
}

fn dashboard(groups: Vec<(&str, Group)>) -> Dashboard {
    let mut m = IndexMap::new();
    for (k, g) in groups {
        m.insert(k.to_string(), g);
    }
    Dashboard { groups: m }
}

fn full_registry() -> WidgetRegistry {
    WidgetRegistry::new()
        .register(WidgetKind::Clock)
        .register(WidgetKind::QuickLinks)
        .register(WidgetKind::SonarrCalendar)
        .register(WidgetKind::SystemStats)
        .register(WidgetKind::Weather)
}

#[test]
fn duplicate_titles_resolve_to_first() {
    let mut first = service("Clock");
    first.href = Some("http://first".to_string());
    let mut second = service("Clock");
    second.href = Some("http://second".to_string());
    let d = dashboard(vec![("tools", group("Tools", vec![first, second]))]);
    let found = d.get_service("tools", "Clock").unwrap();
    assert_eq!(found.href.as_deref(), Some("http://first"));
    let again = get_service_info(&d, "tools", "Clock").unwrap();
    assert_eq!(again.href.as_deref(), Some("http://first"));
}

#[test]
fn lookups_of_absent_group_or_title_find_nothing() {
    let d = dashboard(vec![("tools", group("Tools", vec![service("A")]))]);
    assert!(d.get_service("media", "A").is_none());
    assert!(d.get_service("tools", "B").is_none());
    assert!(d.get_widget("tools", "A").is_none());
    assert!(get_widget_info(&d, "tools", "A").is_none());
}

#[test]
fn widget_lookup_returns_the_widget() {
    let d = dashboard(vec![(
        "tools",
        group("Tools", vec![widget_service("Time", "Clock", None)]),
    )]);
    assert_eq!(d.get_widget("tools", "Time").unwrap().name, "Clock");
}

#[test]
fn sonarr_without_credentials_fails_to_load() {
    let d = dashboard(vec![(
        "media",
        group("Media", vec![widget_service("Sonarr", "SonarrCalendar", Some(HashMap::new()))]),
    )]);
    let registry = WidgetRegistry::new().register(WidgetKind::SonarrCalendar);
    match ConfigManager::new("config.toml", Ok(d), registry) {
        Err(VestaError::InvalidWidgetConfig { widget, service, cause }) => {
            assert_eq!(widget, "SonarrCalendar");
            assert_eq!(service, "Sonarr");
            match *cause {
                VestaError::MissingCredentials { field } => assert_eq!(field, "url"),
                other => panic!("unexpected cause {:?}", other),
            }
        }
        Err(other) => panic!("unexpected error {:?}", other),
        Ok(_) => panic!("configuration accepted"),
    }
}

#[test]
fn sonarr_missing_key_is_reported() {
    let d = dashboard(vec![(
        "media",
        group("Media", vec![widget_service("Sonarr", "SonarrCalendar", Some(settings(&[("url", "http://s")])))]),
    )]);
    let err = full_registry().validate_widgets(&d).unwrap_err();
    match err {
        VestaError::InvalidWidgetConfig { cause, .. } => match *cause {
            VestaError::MissingCredentials { field } => assert_eq!(field, "key"),
            other => panic!("unexpected cause {:?}", other),
        },
        other => panic!("unexpected error {:?}", other),
    }
}

#[test]
fn valid_configuration_passes() {
    let d = dashboard(vec![
        ("tools", group("Tools", vec![widget_service("Time", "Clock", None), service("Plain")])),
        (
            "media",
            group(
                "Media",
                vec![widget_service(
                    "Sonarr",
                    "SonarrCalendar",
                    Some(settings(&[("url", "http://s"), ("key", "k")])),
                )],
            ),
        ),
    ]);
    assert!(full_registry().validate_widgets(&d).is_ok());
}

#[test]
fn unregistered_widget_is_named_with_its_service() {
    let d = dashboard(vec![
        ("tools", group("Tools", vec![widget_service("Time", "Clock", None)])),
        ("other", group("Other", vec![widget_service("Mystery", "Teleporter", None)])),
    ]);
    match full_registry().validate_widgets(&d) {
        Err(VestaError::UnknownWidget { widget, service }) => {
            assert_eq!(widget, "Teleporter");
            assert_eq!(service.as_deref(), Some("Mystery"));
        }
        other => panic!("unexpected result {:?}", other),
    }
}

#[test]
fn first_offender_is_reported() {
    let d = dashboard(vec![(
        "tools",
        group(
            "Tools",
            vec![widget_service("One", "Nope", None), widget_service("Two", "Missing", None)],
        ),
    )]);
    match full_registry().validate_widgets(&d) {
        Err(VestaError::UnknownWidget { widget, .. }) => assert_eq!(widget, "Nope"),
        other => panic!("unexpected result {:?}", other),
    }
}

#[test]
fn plugin_missing_from_registry_is_unknown() {
    let d = dashboard(vec![("tools", group("Tools", vec![widget_service("Time", "Clock", None)]))]);
    let registry = WidgetRegistry::new().register(WidgetKind::Weather);
    assert!(matches!(registry.validate_widgets(&d), Err(VestaError::UnknownWidget { .. })));
}

#[test]
fn failed_reload_keeps_previous_configuration() {
    let d = dashboard(vec![("tools", group("Tools", vec![service("Keep")]))]);
    let mut manager = ConfigManager::new("config.toml", Ok(d), full_registry()).unwrap();
    let mut rx = manager.subscribe_to_changes();
    let bad = dashboard(vec![("tools", group("Tools", vec![widget_service("X", "Nope", None)]))]);
    assert!(manager.reload_config(Ok(bad)).is_err());
    assert!(manager.get_service("tools", "Keep").is_some());
    assert!(manager.get_service("tools", "X").is_none());
    let parse_failure = Err(VestaError::Config(ConfigError::TomlError("bad".to_string())));
    assert!(matches!(manager.reload_config(parse_failure), Err(VestaError::Config(_))));
    assert!(manager.read_config().get_service("tools", "Keep").is_some());
    assert!(rx.try_recv().is_err());
}

#[test]
fn successful_reload_announces_once() {
    let d = dashboard(vec![("tools", group("Tools", vec![service("Old")]))]);
    let mut manager = ConfigManager::new("config.toml", Ok(d), full_registry()).unwrap();
    let mut rx1 = manager.subscribe_to_changes();
    let mut rx2 = manager.subscribe_to_changes();
    let fresh = dashboard(vec![("tools", group("Tools", vec![service("New")]))]);
    manager.reload_config(Ok(fresh)).unwrap();
    assert!(manager.get_service("tools", "New").is_some());
    assert!(manager.get_service("tools", "Old").is_none());
    for rx in [&mut rx1, &mut rx2] {
        let ev = rx.try_recv().unwrap();
        assert_eq!(ev.changes, ConfigChanges::Reloaded);
        assert!(rx.try_recv().is_err());
    }
}

#[test]
fn reload_without_subscribers_still_succeeds() {
    let d = dashboard(vec![]);
    let mut manager = ConfigManager::new("config.toml", Ok(d), full_registry()).unwrap();
    assert!(manager.reload_config(Ok(dashboard(vec![]))).is_ok());
    assert_eq!(manager.config_path(), "config.toml");
}

#[test]
fn stats_after_initialize_match_a_walk_of_the_source() {
    let mut pinged = service("Pinged");
    pinged.ping = Some(PingConfig { url: "http://p".to_string() });
    let mut both = widget_service("Both", "Clock", None);
    both.ping = Some(PingConfig { url: "http://b".to_string() });
    let d = dashboard(vec![
        ("a", group("A", vec![pinged, service("Plain")])),
        ("b", group("B", vec![both, widget_service("W", "Clock", None)])),
        ("c", group("C", vec![])),
    ]);
    let mut groups = 0;
    let mut total = 0;
    let mut ping = 0;
    let mut widgets = 0;
    for (_, g) in &d.groups {
        groups += 1;
        for s in &g.services {
            total += 1;
            if s.ping.is_some() {
                ping += 1;
            }
            if s.widget.is_some() {
                widgets += 1;
            }
        }
    }
    let expected = ConfigStats {
        total_groups: groups,
        total_services: total,
        services_with_ping: ping,
        services_with_widgets: widgets,
    };
    assert_eq!(compute_stats(&d), Some(expected));
    let manager = ConfigManager::new("config.toml", Ok(d), full_registry()).unwrap();
    let stats = manager.get_config_stats().unwrap();
    assert_eq!(stats, expected);
    assert_eq!(stats, ConfigStats { total_groups: 3, total_services: 4, services_with_ping: 2, services_with_widgets: 2 });
}

#[test]
fn stats_of_empty_configuration() {
    assert_eq!(
        compute_stats(&dashboard(vec![])),
        Some(ConfigStats { total_groups: 0, total_services: 0, services_with_ping: 0, services_with_widgets: 0 })
    );
}

#[test]
fn manager_revalidates_and_looks_up_widgets() {
    let d = dashboard(vec![("tools", group("Tools", vec![widget_service("Time", "Clock", None)]))]);
    let manager = ConfigManager::new("config.toml", Ok(d), full_registry()).unwrap();
    assert!(manager.validate_config().is_ok());
    assert_eq!(manager.get_widget("tools", "Time").unwrap().name, "Clock");
}

#[test]
fn api_lookups_report_not_found() {
    let d = dashboard(vec![("tools", group("Tools", vec![service("A")]))]);
    let q = ServiceQuery { group: "tools".to_string(), title: "B".to_string() };
    match find_service(&d, &q) {
        Err(VestaError::ServiceNotFound { group, title }) => {
            assert_eq!(group, "tools");
            assert_eq!(title, "B");
        }
        other => panic!("unexpected {:?}", other.map(|s| s.title.clone())),
    }
    let q = ServiceQuery { group: "tools".to_string(), title: "A".to_string() };
    assert_eq!(find_service(&d, &q).unwrap().title, "A");
    assert!(matches!(find_widget(&d, &q), Err(VestaError::WidgetNotFound { .. })));
}

#[test]
fn ping_targets() {
    let mut p = service("P");
    p.ping = Some(PingConfig { url: "http://up".to_string() });
    let d = dashboard(vec![("g", group("G", vec![p, service("Q")]))]);
    assert_eq!(ping_target(&d, "g", "P").unwrap().url, "http://up");
    assert_eq!(ping_target(&d, "g", "Q").unwrap_err(), PingLookupError::NoPingConfig);
    assert_eq!(ping_target(&d, "g", "R").unwrap_err(), PingLookupError::ServiceNotFound);
}

#[test]
fn listing_covers_every_service_in_order() {
    let mut a = service("A");
    a.href = Some("http://a".to_string());
    let d = dashboard(vec![
        ("one", group("One", vec![a, widget_service("W", "Clock", None)])),
        ("two", group("Two", vec![service("B")])),
    ]);
    let rows = list_services(&d);
    assert_eq!(rows.len(), 3);
    assert_eq!(rows[0].group, "one");
    assert_eq!(rows[0].group_name, "One");
    assert_eq!(rows[0].href.as_deref(), Some("http://a"));
    assert!(rows[1].has_widget);
    assert_eq!(rows[1].widget_type.as_deref(), Some("Clock"));
    assert_eq!(rows[2].group, "two");
    assert_eq!(rows[2].title, "B");
    assert!(!rows[2].has_ping);
}

#[test]
fn late_subscriber_sees_only_later_reloads() {
    let mut manager = ConfigManager::new("config.toml", Ok(dashboard(vec![])), full_registry()).unwrap();
    let _early = manager.subscribe_to_changes();
    manager.reload_config(Ok(dashboard(vec![]))).unwrap();
    let mut late = manager.subscribe_to_changes();
    manager.reload_config(Ok(dashboard(vec![]))).unwrap();
    let bad = dashboard(vec![("t", group("T", vec![widget_service("X", "Nope", None)]))]);
    assert!(manager.reload_config(Ok(bad)).is_err());
    manager.reload_config(Ok(dashboard(vec![]))).unwrap();
    for _ in 0..2 {
        assert_eq!(late.try_recv().unwrap().changes, ConfigChanges::Reloaded);
    }
    assert!(late.try_recv().is_err());
}
