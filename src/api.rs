//! The decisions behind the dashboard's JSON endpoints: which service or
//! widget a request names, and the listing of all services.

use crate::config::{Dashboard, Group, PingConfig, Service, Widget};
use crate::error::VestaError;
use vstd::prelude::*;

verus! {

/// A request naming a service by group and title.
#[derive(Clone, Debug)]
pub struct ServiceQuery {
    pub group: String,
    pub title: String,
}

/// A request for the health report; `detailed` asks for statistics too.
#[derive(Clone, Copy, Debug)]
pub struct HealthQuery {
    pub detailed: bool,
}

/// One line of the listing of all services.
#[derive(Clone, Debug)]
pub struct ServiceRow {
    pub group: String,
    pub group_name: String,
    pub title: String,
    pub href: Option<String>,
    pub has_widget: bool,
    pub has_ping: bool,
    pub widget_type: Option<String>,
}

/// Every service with the key of its group, group after group.
pub open spec fn placed_services(e: Seq<(Seq<char>, Group)>) -> Seq<(Seq<char>, Group, Service)>
    decreases e.len(),
{
    if e.len() == 0 {
        Seq::empty()
    } else {
        placed_services(e.drop_last()) + e.last().1.services@.map_values(|s: Service| (e.last().0, e.last().1, s))
    }
}

/// Whether `row` lists service `s` of group `g` under key `key`.
pub open spec fn lists(row: ServiceRow, key: Seq<char>, g: Group, s: Service) -> bool {
    &&& row.group@ == key
    &&& row.group_name@ == g.name@
    &&& row.title@ == s.title@
    &&& row.href == s.href
    &&& row.has_widget == s.widget is Some
    &&& row.has_ping == s.ping is Some
    &&& match s.widget {
        Some(w) => row.widget_type is Some && row.widget_type->Some_0@ == w.name@,
        None => row.widget_type is None,
    }
}

/// The service that `query` names; a service-not-found error where there
/// is none.
pub fn find_service<'a>(config: &'a Dashboard, query: &ServiceQuery) -> (r: Result<&'a Service, VestaError>)
    ensures
        match config.service_spec(query.group@, query.title@) {
            Some(s) => r == Ok::<&Service, VestaError>(&s),
            None => match r {
                Err(VestaError::ServiceNotFound { group, title }) => group@ == query.group@ && title@ == query.title@,
                _ => false,
            },
        },
{
    match config.get_service(query.group.as_str(), query.title.as_str()) {
        Some(s) => Ok(s),
        None => Err(VestaError::ServiceNotFound { group: query.group.clone(), title: query.title.clone() }),
    }
}

/// The widget of the service that `query` names; a widget-not-found error
/// where there is none.
pub fn find_widget<'a>(config: &'a Dashboard, query: &ServiceQuery) -> (r: Result<&'a Widget, VestaError>)
    ensures
        match config.widget_spec(query.group@, query.title@) {
            Some(w) => r == Ok::<&Widget, VestaError>(&w),
            None => match r {
                Err(VestaError::WidgetNotFound { group, title }) => group@ == query.group@ && title@ == query.title@,
                _ => false,
            },
        },
{
    match config.get_widget(query.group.as_str(), query.title.as_str()) {
        Some(w) => Ok(w),
        None => Err(VestaError::WidgetNotFound { group: query.group.clone(), title: query.title.clone() }),
    }
}

/// Why no liveness check can be made for a service.
#[derive(Clone, Copy, Debug, PartialEq, Eq, Structural)]
pub enum PingLookupError {
    /// No service has that group and title.
    ServiceNotFound,
    /// The service has no liveness-check target.
    NoPingConfig,
}

/// The liveness-check target of the service titled `title` in group `group`.
pub fn ping_target<'a>(config: &'a Dashboard, group: &str, title: &str) -> (r: Result<&'a PingConfig, PingLookupError>)
    ensures
        match config.service_spec(group@, title@) {
            Some(s) => match s.ping {
                Some(p) => r == Ok::<&PingConfig, PingLookupError>(&p),
                None => r == Err::<&PingConfig, PingLookupError>(PingLookupError::NoPingConfig),
            },
            None => r == Err::<&PingConfig, PingLookupError>(PingLookupError::ServiceNotFound),
        },
{
    match config.get_service(group, title) {
        Some(s) => match &s.ping {
            Some(p) => Ok(p),
            None => Err(PingLookupError::NoPingConfig),
        },
        None => Err(PingLookupError::ServiceNotFound),
    }
}

/// One listing line for service `s` of group `g` under key `key`.
fn row_of(key: &String, g: &Group, s: &Service) -> (r: ServiceRow)
    ensures
        lists(r, key@, *g, *s),
{
    let href = match &s.href {
        Some(h) => Some(h.clone()),
        None => None,
    };
    let widget_type = match &s.widget {
        Some(w) => Some(w.name.clone()),
        None => None,
    };
    ServiceRow {
        group: key.clone(),
        group_name: g.name.clone(),
        title: s.title.clone(),
        href,
        has_widget: s.widget.is_some(),
        has_ping: s.ping.is_some(),
        widget_type,
    }
}

/// A listing line for every service, group after group.
pub fn list_services(config: &Dashboard) -> (r: Vec<ServiceRow>)
    ensures
        r@.len() == placed_services(config.entries()).len(),
        forall|k: int| 0 <= k < r@.len() ==> lists(#[trigger] r@[k], placed_services(config.entries())[k].0,
            placed_services(config.entries())[k].1, placed_services(config.entries())[k].2),
{
    let ghost e = config.entries();
    let n = crate::config::group_count(&config.groups);
    let mut rows: Vec<ServiceRow> = Vec::new();
    let mut i: usize = 0;
    while i < n
        invariant
            e == config.entries(),
            n == e.len(),
            i <= n,
            rows@.len() == placed_services(e.subrange(0, i as int)).len(),
            forall|k: int| 0 <= k < rows@.len() ==> lists(#[trigger] rows@[k], placed_services(e.subrange(0, i as int))[k].0,
                placed_services(e.subrange(0, i as int))[k].1, placed_services(e.subrange(0, i as int))[k].2),
        decreases n - i,
    {
        let (key, g) = match crate::config::group_at(&config.groups, i) {
            Some(kv) => kv,
            None => { return rows; },
        };
        let ghost before = placed_services(e.subrange(0, i as int));
        let ghost added = g.services@.map_values(|s: Service| (key@, *g, s));
        assert(e.subrange(0, i + 1).drop_last() =~= e.subrange(0, i as int));
        assert(e.subrange(0, i + 1).last() == e[i as int]);
        assert(placed_services(e.subrange(0, i + 1)) == before + added);
        let m = g.services.len();
        let mut j: usize = 0;
        while j < m
            invariant
                m == g.services@.len(),
                added == g.services@.map_values(|s: Service| (key@, *g, s)),
                j <= m,
                rows@.len() == before.len() + j,
                forall|k: int| 0 <= k < rows@.len() ==> lists(#[trigger] rows@[k], (before + added)[k].0,
                    (before + added)[k].1, (before + added)[k].2),
            decreases m - j,
        {
            let row = row_of(key, g, &g.services[j]);
            let ghost old_rows = rows@;
            let ghost rw = row;
            rows.push(row);
            assert forall|k: int| 0 <= k < rows@.len() implies lists(#[trigger] rows@[k], (before + added)[k].0,
                (before + added)[k].1, (before + added)[k].2) by {
                if k < old_rows.len() {
                    assert(rows@[k] == old_rows[k]);
                } else {
                    assert(rows@[k] == rw);
                    assert((before + added)[k] == added[j as int]);
                }
            }
            j = j + 1;
        }
        i = i + 1;
    }
    assert(e.subrange(0, n as int) =~= e);
    rows
}

} // verus!
