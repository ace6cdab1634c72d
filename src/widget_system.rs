//! The widget registry: the catalogue of plugins by name, the check of a
//! whole configuration against it, and the routing of render and data
//! requests to the right plugin.

use crate::config::{Dashboard, Service, Widget};
use crate::config_manager::all_services;
use crate::error::VestaError;
use crate::text::{escape_html, html_escaped};
use crate::widgets::clock_widget::ClockWidget;
use crate::widgets::quick_links_widget::QuickLinksWidget;
use crate::widgets::sonarr_calendar_widget::SonarrCalendarWidget;
use crate::widgets::system_stats_widget::SystemStatsWidget;
use crate::widgets::weather_widget::WeatherWidget;
use crate::widgets::WidgetHandler;
use vstd::prelude::*;

verus! {

/// The group and title of the service whose widget data is asked for.
#[derive(Clone, Debug)]
pub struct WidgetQuery {
    pub group: String,
    pub title: String,
}

/// The plugins that the dashboard ships with.
#[derive(Clone, Copy, Debug, PartialEq, Eq, Structural)]
pub enum WidgetKind {
    Clock,
    QuickLinks,
    SonarrCalendar,
    SystemStats,
    Weather,
}

impl WidgetHandler for WidgetKind {
    open spec fn spec_name(&self) -> Seq<char> {
        match self {
            WidgetKind::Clock => ClockWidget.spec_name(),
            WidgetKind::QuickLinks => QuickLinksWidget.spec_name(),
            WidgetKind::SonarrCalendar => SonarrCalendarWidget.spec_name(),
            WidgetKind::SystemStats => SystemStatsWidget.spec_name(),
            WidgetKind::Weather => WeatherWidget.spec_name(),
        }
    }

    open spec fn accepts(&self, w: Widget) -> bool {
        match self {
            WidgetKind::Clock => ClockWidget.accepts(w),
            WidgetKind::QuickLinks => QuickLinksWidget.accepts(w),
            WidgetKind::SonarrCalendar => SonarrCalendarWidget.accepts(w),
            WidgetKind::SystemStats => SystemStatsWidget.accepts(w),
            WidgetKind::Weather => WeatherWidget.accepts(w),
        }
    }

    open spec fn rejection(&self, w: Widget, e: VestaError) -> bool {
        match self {
            WidgetKind::Clock => ClockWidget.rejection(w, e),
            WidgetKind::QuickLinks => QuickLinksWidget.rejection(w, e),
            WidgetKind::SonarrCalendar => SonarrCalendarWidget.rejection(w, e),
            WidgetKind::SystemStats => SystemStatsWidget.rejection(w, e),
            WidgetKind::Weather => WeatherWidget.rejection(w, e),
        }
    }

    open spec fn renders(&self, group_id: Seq<char>, service: Service, out: Seq<char>) -> bool {
        match self {
            WidgetKind::Clock => ClockWidget.renders(group_id, service, out),
            WidgetKind::QuickLinks => QuickLinksWidget.renders(group_id, service, out),
            WidgetKind::SonarrCalendar => SonarrCalendarWidget.renders(group_id, service, out),
            WidgetKind::SystemStats => SystemStatsWidget.renders(group_id, service, out),
            WidgetKind::Weather => WeatherWidget.renders(group_id, service, out),
        }
    }

    fn name(&self) -> (r: &'static str) {
        match self {
            WidgetKind::Clock => ClockWidget.name(),
            WidgetKind::QuickLinks => QuickLinksWidget.name(),
            WidgetKind::SonarrCalendar => SonarrCalendarWidget.name(),
            WidgetKind::SystemStats => SystemStatsWidget.name(),
            WidgetKind::Weather => WeatherWidget.name(),
        }
    }

    fn render(&self, group_id: &str, service: &Service) -> (r: String) {
        match self {
            WidgetKind::Clock => ClockWidget.render(group_id, service),
            WidgetKind::QuickLinks => QuickLinksWidget.render(group_id, service),
            WidgetKind::SonarrCalendar => SonarrCalendarWidget.render(group_id, service),
            WidgetKind::SystemStats => SystemStatsWidget.render(group_id, service),
            WidgetKind::Weather => WeatherWidget.render(group_id, service),
        }
    }

    fn validate_config(&self, widget: &Widget) -> (r: Result<(), VestaError>) {
        match self {
            WidgetKind::Clock => ClockWidget.validate_config(widget),
            WidgetKind::QuickLinks => QuickLinksWidget.validate_config(widget),
            WidgetKind::SonarrCalendar => SonarrCalendarWidget.validate_config(widget),
            WidgetKind::SystemStats => SystemStatsWidget.validate_config(widget),
            WidgetKind::Weather => WeatherWidget.validate_config(widget),
        }
    }
}

/// The plugin whose name is `n`, among those that the dashboard ships with.
pub open spec fn kind_named(n: Seq<char>) -> Option<WidgetKind> {
    if n == WidgetKind::Clock.spec_name() {
        Some(WidgetKind::Clock)
    } else if n == WidgetKind::QuickLinks.spec_name() {
        Some(WidgetKind::QuickLinks)
    } else if n == WidgetKind::SonarrCalendar.spec_name() {
        Some(WidgetKind::SonarrCalendar)
    } else if n == WidgetKind::SystemStats.spec_name() {
        Some(WidgetKind::SystemStats)
    } else if n == WidgetKind::Weather.spec_name() {
        Some(WidgetKind::Weather)
    } else {
        None
    }
}

/// The fragment that stands in a page for a widget whose plugin is unknown.
pub open spec fn unknown_widget_fragment(name: Seq<char>) -> Seq<char> {
    "<div class=\"p-4 text-red-400 bg-red-900/20 border border-red-800 rounded-xl\">Unknown widget: "@
        + html_escaped(name) + "</div>"@
}

/// Whether the widget of service `s`, if any, names a registered plugin
/// that accepts its settings.
pub open spec fn service_ok(reg: WidgetRegistry, s: Service) -> bool {
    match s.widget {
        Some(w) => match reg.lookup(w.name@) {
            Some(k) => k.accepts(w),
            None => false,
        },
        None => true,
    }
}

/// Whether `e` reports what is wrong with the widget of service `s`.
pub open spec fn reports(reg: WidgetRegistry, s: Service, e: VestaError) -> bool {
    match s.widget {
        Some(w) => match reg.lookup(w.name@) {
            Some(k) => match e {
                VestaError::InvalidWidgetConfig { widget, service, cause } => widget@ == w.name@
                    && service@ == s.title@ && k.rejection(w, *cause),
                _ => false,
            },
            None => match e {
                VestaError::UnknownWidget { widget, service } => widget@ == w.name@ && service is Some
                    && service->Some_0@ == s.title@,
                _ => false,
            },
        },
        None => false,
    }
}

/// Whether every widget of configuration `d` names a registered plugin that
/// accepts its settings.
pub open spec fn dashboard_ok(reg: WidgetRegistry, d: Dashboard) -> bool {
    forall|k: int| 0 <= k < all_services(d.entries()).len() ==> service_ok(reg, #[trigger] all_services(d.entries())[k])
}

/// Whether `e` reports the first service of `d`, in configuration order,
/// whose widget is wrong.
pub open spec fn reports_first_offender(reg: WidgetRegistry, d: Dashboard, e: VestaError) -> bool {
    let flat = all_services(d.entries());
    exists|k: int| 0 <= k < flat.len()
        && (forall|k2: int| 0 <= k2 < k ==> service_ok(reg, #[trigger] flat[k2]))
        && !service_ok(reg, #[trigger] flat[k])
        && reports(reg, flat[k], e)
}

/// The catalogue of plugins, one slot per plugin that the dashboard ships
/// with. Registering a plugin again leaves it registered.
pub struct WidgetRegistry {
    clock: bool,
    quick_links: bool,
    sonarr_calendar: bool,
    system_stats: bool,
    weather: bool,
}

impl WidgetRegistry {
    /// Whether plugin `k` is registered.
    pub closed spec fn has(self, k: WidgetKind) -> bool {
        match k {
            WidgetKind::Clock => self.clock,
            WidgetKind::QuickLinks => self.quick_links,
            WidgetKind::SonarrCalendar => self.sonarr_calendar,
            WidgetKind::SystemStats => self.system_stats,
            WidgetKind::Weather => self.weather,
        }
    }

    /// The names of the registered plugins, in a fixed order.
    pub open spec fn registered_names(self) -> Seq<Seq<char>> {
        (if self.has(WidgetKind::Clock) { seq![WidgetKind::Clock.spec_name()] } else { Seq::empty() })
            + (if self.has(WidgetKind::QuickLinks) { seq![WidgetKind::QuickLinks.spec_name()] } else { Seq::empty() })
            + (if self.has(WidgetKind::SonarrCalendar) { seq![WidgetKind::SonarrCalendar.spec_name()] } else { Seq::empty() })
            + (if self.has(WidgetKind::SystemStats) { seq![WidgetKind::SystemStats.spec_name()] } else { Seq::empty() })
            + (if self.has(WidgetKind::Weather) { seq![WidgetKind::Weather.spec_name()] } else { Seq::empty() })
    }

    /// The registered plugin named `n`.
    pub open spec fn lookup(self, n: Seq<char>) -> Option<WidgetKind> {
        match kind_named(n) {
            Some(k) => if self.has(k) { Some(k) } else { None },
            None => None,
        }
    }

    /// An empty registry.
    pub fn new() -> (r: Self)
        ensures
            forall|n: Seq<char>| r.lookup(n) is None,
    {
        WidgetRegistry {
            clock: false,
            quick_links: false,
            sonarr_calendar: false,
            system_stats: false,
            weather: false,
        }
    }

    /// The registry with `widget` registered under its name as well.
    pub fn register(self, widget: WidgetKind) -> (r: Self)
        ensures
            forall|k: WidgetKind| r.has(k) == (k == widget || self.has(k)),
    {
        let mut r = self;
        match widget {
            WidgetKind::Clock => r.clock = true,
            WidgetKind::QuickLinks => r.quick_links = true,
            WidgetKind::SonarrCalendar => r.sonarr_calendar = true,
            WidgetKind::SystemStats => r.system_stats = true,
            WidgetKind::Weather => r.weather = true,
        }
        r
    }

    /// The plugin named `name`, if it is registered.
    pub fn get(&self, name: &str) -> (r: Option<WidgetKind>)
        ensures
            r == self.lookup(name@),
    {
        let candidates: [WidgetKind; 5] = [
            WidgetKind::Clock,
            WidgetKind::QuickLinks,
            WidgetKind::SonarrCalendar,
            WidgetKind::SystemStats,
            WidgetKind::Weather,
        ];
        let mut i: usize = 0;
        while i < 5
            invariant
                i <= 5,
                candidates@ == seq![WidgetKind::Clock, WidgetKind::QuickLinks, WidgetKind::SonarrCalendar,
                    WidgetKind::SystemStats, WidgetKind::Weather],
                forall|k: int| 0 <= k < i ==> candidates@[k].spec_name() != name@,
            decreases 5 - i,
        {
            let k = candidates[i];
            if crate::config::str_eq(k.name(), name) {
                proof {
                    reveal_strlit("Clock");
                    reveal_strlit("QuickLinks");
                    reveal_strlit("SonarrCalendar");
                    reveal_strlit("SystemStats");
                    reveal_strlit("Weather");
                }
                if self.has_kind(k) {
                    return Some(k);
                } else {
                    return None;
                }
            }
            i = i + 1;
        }
        None
    }

    /// Whether plugin `k` is registered.
    pub fn has_kind(&self, k: WidgetKind) -> (r: bool)
        ensures
            r == self.has(k),
    {
        match k {
            WidgetKind::Clock => self.clock,
            WidgetKind::QuickLinks => self.quick_links,
            WidgetKind::SonarrCalendar => self.sonarr_calendar,
            WidgetKind::SystemStats => self.system_stats,
            WidgetKind::Weather => self.weather,
        }
    }

    /// The names of the registered plugins.
    pub fn get_registered_widgets(&self) -> (r: Vec<&'static str>)
        ensures
            r@.map_values(|s: &'static str| s@) == self.registered_names(),
    {
        let mut names: Vec<&'static str> = Vec::new();
        if self.clock {
            names.push(WidgetKind::Clock.name());
        }
        if self.quick_links {
            names.push(WidgetKind::QuickLinks.name());
        }
        if self.sonarr_calendar {
            names.push(WidgetKind::SonarrCalendar.name());
        }
        if self.system_stats {
            names.push(WidgetKind::SystemStats.name());
        }
        if self.weather {
            names.push(WidgetKind::Weather.name());
        }
        assert(names@.map_values(|s: &'static str| s@) =~= self.registered_names());
        names
    }

    /// Checks the widget of one service against the registry.
    pub fn check_service(&self, service: &Service) -> (r: Result<(), VestaError>)
        ensures
            match r {
                Ok(()) => service_ok(*self, *service),
                Err(e) => !service_ok(*self, *service) && reports(*self, *service, e),
            },
    {
        match &service.widget {
            None => Ok(()),
            Some(w) => match self.get(w.name.as_str()) {
                Some(k) => match k.validate_config(w) {
                    Ok(()) => Ok(()),
                    Err(cause) => Err(VestaError::InvalidWidgetConfig {
                        widget: w.name.clone(),
                        service: service.title.clone(),
                        cause: Box::new(cause),
                    }),
                },
                None => Err(VestaError::UnknownWidget {
                    widget: w.name.clone(),
                    service: Some(service.title.clone()),
                }),
            },
        }
    }

    /// Checks every widget of `config`, in configuration order: each must
    /// name a registered plugin that accepts its settings. The error reports
    /// the first service whose widget fails, with the widget's name.
    pub fn validate_widgets(&self, config: &Dashboard) -> (r: Result<(), VestaError>)
        ensures
            match r {
                Ok(()) => dashboard_ok(*self, *config),
                Err(e) => !dashboard_ok(*self, *config) && reports_first_offender(*self, *config, e),
            },
    {
        let ghost e = config.entries();
        let n = crate::config::group_count(&config.groups);
        let mut i: usize = 0;
        while i < n
            invariant
                e == config.entries(),
                n == e.len(),
                i <= n,
                forall|k: int| 0 <= k < all_services(e.subrange(0, i as int)).len()
                    ==> service_ok(*self, #[trigger] all_services(e.subrange(0, i as int))[k]),
            decreases n - i,
        {
            let g = match crate::config::group_at(&config.groups, i) {
                Some(kv) => kv.1,
                None => { return Ok(()); },
            };
            let ghost before = all_services(e.subrange(0, i as int));
            let ghost s = g.services@;
            assert(e.subrange(0, i + 1).drop_last() =~= e.subrange(0, i as int));
            assert(all_services(e.subrange(0, i + 1)) == before + s);
            let m = g.services.len();
            let mut j: usize = 0;
            while j < m
                invariant
                    m == s.len(),
                    s == g.services@,
                    j <= m,
                    i < n,
                    n == e.len(),
                    e == config.entries(),
                    all_services(e.subrange(0, i + 1)) == before + s,
                    forall|k: int| 0 <= k < before.len() ==> service_ok(*self, #[trigger] before[k]),
                    forall|k: int| 0 <= k < j ==> service_ok(*self, #[trigger] s[k]),
                decreases m - j,
            {
                match self.check_service(&g.services[j]) {
                    Ok(()) => {},
                    Err(err) => {
                        proof {
                            lemma_prefix_services(e, i as int + 1);
                            let flat = all_services(e);
                            let p = before.len() + j;
                            assert((before + s)[p as int] == s[j as int]);
                            assert(flat[p as int] == s[j as int]);
                            assert forall|k2: int| 0 <= k2 < p implies service_ok(*self, #[trigger] flat[k2]) by {
                                assert(flat[k2] == (before + s)[k2]);
                                if k2 >= before.len() {
                                    assert((before + s)[k2] == s[k2 - before.len()]);
                                }
                            }
                            assert(p < all_services(e.subrange(0, i + 1)).len());
                            assert(all_services(e.subrange(0, i + 1))[p as int] == flat[p as int]);
                            assert(0 <= p < flat.len());
                            assert(!service_ok(*self, flat[p as int]));
                            assert(reports(*self, flat[p as int], err));
                            assert(reports_first_offender(*self, *config, err));
                        }
                        return Err(err);
                    },
                }
                j = j + 1;
            }
            assert forall|k: int| 0 <= k < all_services(e.subrange(0, i + 1)).len()
                implies service_ok(*self, #[trigger] all_services(e.subrange(0, i + 1))[k]) by {
                if k >= before.len() {
                    assert((before + s)[k] == s[k - before.len()]);
                }
            }
            i = i + 1;
        }
        assert(e.subrange(0, n as int) =~= e);
        Ok(())
    }

    /// The fragment of a widget in a page: the plugin's placeholder, or a
    /// visible error naming the widget where no plugin carries its name.
    pub fn render_widget(&self, group_id: &str, service: &Service, widget: &Widget) -> (r: String)
        ensures
            match self.lookup(widget.name@) {
                Some(k) => k.renders(group_id@, *service, r@),
                None => r@ == unknown_widget_fragment(widget.name@),
            },
    {
        match self.get(widget.name.as_str()) {
            Some(k) => k.render(group_id, service),
            None => {
                let mut s = String::from_str(
                    "<div class=\"p-4 text-red-400 bg-red-900/20 border border-red-800 rounded-xl\">Unknown widget: ",
                );
                let name = escape_html(widget.name.as_str());
                s.append(name.as_str());
                s.append("</div>");
                s
            },
        }
    }

    /// The plugin that serves data requests for widget `widget_name`; an
    /// unknown-widget error where none is registered under that name.
    pub fn dispatch(&self, widget_name: &str) -> (r: Result<WidgetKind, VestaError>)
        ensures
            match self.lookup(widget_name@) {
                Some(k) => r == Ok::<WidgetKind, VestaError>(k),
                None => match r {
                    Err(VestaError::UnknownWidget { widget, service }) => widget@ == widget_name@ && service is None,
                    _ => false,
                },
            },
            r is Err ==> !r->Err_0.is_not_found(),
    {
        match self.get(widget_name) {
            Some(k) => Ok(k),
            None => Err(VestaError::UnknownWidget { widget: String::from_str(widget_name), service: None }),
        }
    }
}

/// A configuration in which some service's widget names no registered
/// plugin does not pass the registry's check.
pub proof fn unregistered_widget_fails(reg: WidgetRegistry, d: Dashboard, k: int)
    requires
        0 <= k < all_services(d.entries()).len(),
        all_services(d.entries())[k].widget is Some,
        reg.lookup(all_services(d.entries())[k].widget->Some_0.name@) is None,
    ensures
        !dashboard_ok(reg, d),
{
    assert(!service_ok(reg, all_services(d.entries())[k]));
}

/// Whether `s` holds none of the characters that HTML escaping replaces.
pub open spec fn plain_text(s: Seq<char>) -> bool {
    forall|i: int| 0 <= i < s.len() ==> s[i] != '&' && s[i] != '<' && s[i] != '>' && s[i] != '"'
}

proof fn lemma_plain_unescaped(s: Seq<char>)
    requires
        plain_text(s),
    ensures
        html_escaped(s) == s,
    decreases s.len(),
{
    if s.len() > 0 {
        assert(plain_text(s.drop_last()));
        lemma_plain_unescaped(s.drop_last());
        assert(s.drop_last().push(s.last()) =~= s);
        assert(crate::text::escaped_char(s.last()) == seq![s.last()]);
        assert(s.drop_last() + seq![s.last()] =~= s);
    }
}

/// The fragment that stands in for a widget of an unknown plugin holds the
/// widget's name, escaped for HTML; a name with no character that escaping
/// replaces stands in it literally.
pub proof fn unknown_widget_fragment_names_widget(name: Seq<char>)
    ensures
        ({
            let f = unknown_widget_fragment(name);
            let k = "<div class=\"p-4 text-red-400 bg-red-900/20 border border-red-800 rounded-xl\">Unknown widget: "@.len() as int;
            &&& k + html_escaped(name).len() <= f.len()
            &&& f.subrange(k, k + html_escaped(name).len()) == html_escaped(name)
            &&& plain_text(name) ==> f.subrange(k, k + name.len()) == name
        }),
{
    let f = unknown_widget_fragment(name);
    let pre = "<div class=\"p-4 text-red-400 bg-red-900/20 border border-red-800 rounded-xl\">Unknown widget: "@;
    let e = html_escaped(name);
    assert(f.subrange(pre.len() as int, (pre.len() + e.len()) as int) =~= e);
    if plain_text(name) {
        lemma_plain_unescaped(name);
    }
}

/// The services of the first `i` groups come first among all services.
proof fn lemma_prefix_services(e: Seq<(Seq<char>, crate::config::Group)>, i: int)
    requires
        0 <= i <= e.len(),
    ensures
        all_services(e.subrange(0, i)).len() <= all_services(e).len(),
        forall|k: int| 0 <= k < all_services(e.subrange(0, i)).len()
            ==> #[trigger] all_services(e.subrange(0, i))[k] == all_services(e)[k],
    decreases e.len() - i,
{
    if i == e.len() {
        assert(e.subrange(0, i) =~= e);
    } else {
        lemma_prefix_services(e, i + 1);
        assert(e.subrange(0, i + 1).drop_last() =~= e.subrange(0, i));
        let a = all_services(e.subrange(0, i));
        let b = all_services(e.subrange(0, i + 1));
        assert(b == a + e[i].1.services@);
        assert forall|k: int| 0 <= k < a.len() implies #[trigger] a[k] == all_services(e)[k] by {
            assert(b[k] == a[k]);
        }
    }
}

} // verus!
