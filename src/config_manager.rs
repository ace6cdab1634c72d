//! The configuration manager: it owns the live configuration, swaps in a
//! replacement only once it is fully validated, and announces each swap.

use crate::config::{Dashboard, Group, Service, Widget};
use crate::error::{VestaError, VestaResult};
use crate::widget_system::{dashboard_ok, reports_first_offender, WidgetRegistry};
use std::time::SystemTime;
use tokio::sync::broadcast::{Receiver, Sender};
use vstd::prelude::*;

verus! {

#[verifier::external_type_specification]
#[verifier::external_body]
pub struct ExSystemTime(SystemTime);

#[verifier::external_type_specification]
#[verifier::external_body]
#[verifier::reject_recursive_types(T)]
pub struct ExSender<T>(Sender<T>);

#[verifier::external_type_specification]
#[verifier::external_body]
#[verifier::reject_recursive_types(T)]
pub struct ExReceiver<T>(Receiver<T>);

/// Relies on `SystemTime::now`, which reads the system clock; nothing is
/// claimed of the instant.
pub assume_specification[ SystemTime::now ]() -> SystemTime;

/// The events written so far into the queue of a change channel, in order.
pub uninterp spec fn published(s: Sender<ConfigChangeEvent>) -> Seq<ConfigChangeEvent>;

/// Relies on tokio's `broadcast::channel`, which panics on a capacity of
/// zero or above `usize::MAX / 2`; a new channel has nothing in its queue.
/// The receiver that comes with the sender is dropped.
#[verifier::external_body]
fn open_channel(capacity: usize) -> (r: Sender<ConfigChangeEvent>)
    requires
        0 < capacity <= usize::MAX / 2,
    ensures
        published(r) == Seq::<ConfigChangeEvent>::empty(),
{
    tokio::sync::broadcast::channel(capacity).0
}

/// Relies on tokio's `Sender::send`: with no receiver subscribed it fails
/// and writes nothing; otherwise it writes the event at the tail of the
/// queue and returns how many receivers were subscribed.
#[verifier::external_body]
fn publish(s: &mut Sender<ConfigChangeEvent>, event: ConfigChangeEvent) -> (r: Option<usize>)
    ensures
        match r {
            Some(n) => n > 0 && published(*final(s)) == published(*old(s)).push(event),
            None => published(*final(s)) == published(*old(s)),
        },
{
    s.send(event).ok()
}

/// The position in its channel's queue from which a receiver reads: the
/// number of events the channel had accepted when the receiver was made.
pub uninterp spec fn start_of(r: Receiver<ConfigChangeEvent>) -> nat;

/// Relies on tokio's `Sender::subscribe`: a receiver that starts at the tail
/// of the queue, so that it receives the events sent from now on.
#[verifier::external_body]
fn subscribe(s: &Sender<ConfigChangeEvent>) -> (r: Receiver<ConfigChangeEvent>)
    ensures
        start_of(r) == published(*s).len(),
{
    s.subscribe()
}

/// What a change announcement says happened.
#[derive(Clone, Copy, Debug, PartialEq, Eq, Structural)]
pub enum ConfigChanges {
    Reloaded,
    ServicesUpdated,
    WidgetsUpdated,
}

/// A change announcement: when, and what.
#[derive(Clone, Copy, Debug)]
pub struct ConfigChangeEvent {
    pub timestamp: SystemTime,
    pub changes: ConfigChanges,
}

/// How many announcements a subscriber may fall behind before it misses some.
pub const CHANGE_CAPACITY: usize = 100;

/// Owner of the live configuration. It holds only configurations that every
/// widget of passes the registry's check, replaces the configuration whole,
/// and announces each replacement to its subscribers.
pub struct ConfigManager {
    config: Dashboard,
    config_path: String,
    change_notifier: Sender<ConfigChangeEvent>,
    widget_registry: WidgetRegistry,
}

impl ConfigManager {
    /// The live configuration.
    pub closed spec fn current(self) -> Dashboard {
        self.config
    }

    /// The registry that configurations are checked against.
    pub closed spec fn registry(self) -> WidgetRegistry {
        self.widget_registry
    }

    /// Where the configuration is read from.
    pub closed spec fn path(self) -> Seq<char> {
        self.config_path@
    }

    /// The announcements made so far.
    pub closed spec fn announcements(self) -> Seq<ConfigChangeEvent> {
        published(self.change_notifier)
    }

    /// The live configuration passes the registry's check.
    pub open spec fn wf(self) -> bool {
        dashboard_ok(self.registry(), self.current())
    }

    /// A manager of the configuration `loaded` from `config_path`, once
    /// every widget of it passes the registry's check. A failure to load is
    /// handed back as it is.
    pub fn new(config_path: &str, loaded: VestaResult<Dashboard>, widget_registry: WidgetRegistry) -> (r: VestaResult<Self>)
        ensures
            match loaded {
                Ok(d) => match r {
                    Ok(m) => dashboard_ok(widget_registry, d) && m.current() == d && m.wf()
                        && m.registry() == widget_registry && m.path() == config_path@
                        && m.announcements() == Seq::<ConfigChangeEvent>::empty(),
                    Err(e) => !dashboard_ok(widget_registry, d) && reports_first_offender(widget_registry, d, e),
                },
                Err(e) => r == Err::<Self, VestaError>(e),
            },
    {
        let config = match loaded {
            Ok(d) => d,
            Err(e) => {
                return Err(e);
            },
        };
        match widget_registry.validate_widgets(&config) {
            Ok(()) => {},
            Err(e) => {
                return Err(e);
            },
        }
        let change_notifier = open_channel(CHANGE_CAPACITY);
        Ok(ConfigManager {
            config,
            config_path: String::from_str(config_path),
            change_notifier,
            widget_registry,
        })
    }

    /// The live configuration.
    pub fn read_config(&self) -> (r: &Dashboard)
        ensures
            *r == self.current(),
    {
        &self.config
    }

    /// Where the configuration is read from.
    pub fn config_path(&self) -> (r: &str)
        ensures
            r@ == self.path(),
    {
        self.config_path.as_str()
    }

    /// The registry that configurations are checked against.
    pub fn widget_registry(&self) -> (r: &WidgetRegistry)
        ensures
            *r == self.registry(),
    {
        &self.widget_registry
    }

    /// Replaces the live configuration by the one `loaded` anew, once every
    /// widget of it passes the registry's check, and announces the
    /// replacement. On any failure nothing changes.
    pub fn reload_config(&mut self, loaded: VestaResult<Dashboard>) -> (r: VestaResult<()>)
        ensures
            final(self).registry() == old(self).registry(),
            final(self).path() == old(self).path(),
            match loaded {
                Ok(d) => match r {
                    Ok(()) => dashboard_ok(old(self).registry(), d) && final(self).current() == d
                        && reloaded_once(old(self).announcements(), final(self).announcements()),
                    Err(e) => !dashboard_ok(old(self).registry(), d)
                        && reports_first_offender(old(self).registry(), d, e)
                        && final(self).current() == old(self).current()
                        && final(self).announcements() == old(self).announcements(),
                },
                Err(e) => r == Err::<(), VestaError>(e) && final(self).current() == old(self).current()
                    && final(self).announcements() == old(self).announcements(),
            },
            old(self).wf() ==> final(self).wf(),
    {
        let new_config = match loaded {
            Ok(d) => d,
            Err(e) => {
                return Err(e);
            },
        };
        match self.widget_registry.validate_widgets(&new_config) {
            Ok(()) => {},
            Err(e) => {
                return Err(e);
            },
        }
        self.config = new_config;
        let event = ConfigChangeEvent { timestamp: SystemTime::now(), changes: ConfigChanges::Reloaded };
        let ghost before = published(self.change_notifier);
        let _ = publish(&mut self.change_notifier, event);
        assert(before.push(event).drop_last() =~= before);
        Ok(())
    }

    /// A receiver of the announcements made from now on.
    pub fn subscribe_to_changes(&self) -> (r: Receiver<ConfigChangeEvent>)
        ensures
            start_of(r) == self.announcements().len(),
    {
        subscribe(&self.change_notifier)
    }

    /// The service titled `title` in group `group` of the live configuration.
    pub fn get_service(&self, group: &str, title: &str) -> (r: Option<&Service>)
        ensures
            match r {
                Some(s) => self.current().service_spec(group@, title@) == Some(*s),
                None => self.current().service_spec(group@, title@) is None,
            },
    {
        self.config.get_service(group, title)
    }

    /// The widget of that service, if it has one.
    pub fn get_widget(&self, group: &str, title: &str) -> (r: Option<&Widget>)
        ensures
            match r {
                Some(w) => self.current().widget_spec(group@, title@) == Some(*w),
                None => self.current().widget_spec(group@, title@) is None,
            },
    {
        self.config.get_widget(group, title)
    }

    /// Checks the live configuration against the registry again.
    pub fn validate_config(&self) -> (r: VestaResult<()>)
        ensures
            match r {
                Ok(()) => dashboard_ok(self.registry(), self.current()),
                Err(e) => !dashboard_ok(self.registry(), self.current())
                    && reports_first_offender(self.registry(), self.current(), e),
            },
    {
        self.widget_registry.validate_widgets(&self.config)
    }

    /// The counts of the live configuration; an internal error only where
    /// the number of services does not fit in a `usize`.
    pub fn get_config_stats(&self) -> (r: VestaResult<ConfigStats>)
        ensures
            match r {
                Ok(st) => st == ConfigStats::of(self.current()),
                Err(e) => service_total(self.current().entries()) > usize::MAX
                    && e.is_internal("Too many services to count"@),
            },
    {
        match compute_stats(&self.config) {
            Some(st) => Ok(st),
            None => Err(VestaError::internal("Too many services to count")),
        }
    }
}

/// Whether `after` is `before` with at most one announcement added, a
/// reload one, and with exactly that one wherever a subscriber listened.
pub open spec fn reloaded_once(before: Seq<ConfigChangeEvent>, after: Seq<ConfigChangeEvent>) -> bool {
    after == before || (after.len() == before.len() + 1 && after.drop_last() == before
        && after.last().changes == ConfigChanges::Reloaded)
}

/// The services of `s` that have a liveness-check target.
pub open spec fn pinged(s: Seq<Service>) -> Seq<Service> {
    s.filter(|x: Service| x.ping is Some)
}

/// The services of `s` that are rendered by a widget.
pub open spec fn widgeted(s: Seq<Service>) -> Seq<Service> {
    s.filter(|x: Service| x.widget is Some)
}

/// The number of services over the groups of `e`.
pub open spec fn service_total(e: Seq<(Seq<char>, Group)>) -> nat
    decreases e.len(),
{
    if e.len() == 0 {
        0
    } else {
        service_total(e.drop_last()) + e.last().1.services@.len()
    }
}

/// The number of services with a liveness-check target over the groups of `e`.
pub open spec fn pinged_total(e: Seq<(Seq<char>, Group)>) -> nat
    decreases e.len(),
{
    if e.len() == 0 {
        0
    } else {
        pinged_total(e.drop_last()) + pinged(e.last().1.services@).len()
    }
}

/// The number of services with a widget over the groups of `e`.
pub open spec fn widgeted_total(e: Seq<(Seq<char>, Group)>) -> nat
    decreases e.len(),
{
    if e.len() == 0 {
        0
    } else {
        widgeted_total(e.drop_last()) + widgeted(e.last().1.services@).len()
    }
}

/// All services of all groups of `e`, group after group.
pub open spec fn all_services(e: Seq<(Seq<char>, Group)>) -> Seq<Service>
    decreases e.len(),
{
    if e.len() == 0 {
        Seq::empty()
    } else {
        all_services(e.drop_last()) + e.last().1.services@
    }
}

/// Counts derived from a configuration.
#[derive(Clone, Copy, Debug, PartialEq, Eq)]
pub struct ConfigStats {
    pub total_groups: usize,
    pub total_services: usize,
    pub services_with_ping: usize,
    pub services_with_widgets: usize,
}

impl ConfigStats {
    /// The counts of a configuration, group by group.
    pub open spec fn of(d: Dashboard) -> ConfigStats {
        ConfigStats {
            total_groups: d.entries().len() as usize,
            total_services: service_total(d.entries()) as usize,
            services_with_ping: pinged_total(d.entries()) as usize,
            services_with_widgets: widgeted_total(d.entries()) as usize,
        }
    }
}

/// Counting group by group agrees with walking all services of the
/// configuration in order and counting those with a liveness-check target
/// and those with a widget.
pub proof fn stats_match_flat_walk(d: Dashboard)
    ensures
        ConfigStats::of(d).total_groups == d.entries().len() as usize,
        service_total(d.entries()) == all_services(d.entries()).len(),
        pinged_total(d.entries()) == pinged(all_services(d.entries())).len(),
        widgeted_total(d.entries()) == widgeted(all_services(d.entries())).len(),
{
    lemma_totals_flat(d.entries());
}

proof fn lemma_totals_flat(e: Seq<(Seq<char>, Group)>)
    ensures
        service_total(e) == all_services(e).len(),
        pinged_total(e) == pinged(all_services(e)).len(),
        widgeted_total(e) == widgeted(all_services(e)).len(),
    decreases e.len(),
{
    reveal(Seq::filter);
    if e.len() > 0 {
        lemma_totals_flat(e.drop_last());
        let a = all_services(e.drop_last());
        let b = e.last().1.services@;
        Seq::filter_distributes_over_add(a, b, |x: Service| x.ping is Some);
        Seq::filter_distributes_over_add(a, b, |x: Service| x.widget is Some);
    }
}

proof fn lemma_filter_len_le(s: Seq<Service>)
    ensures
        pinged(s).len() <= s.len(),
        widgeted(s).len() <= s.len(),
    decreases s.len(),
{
    reveal(Seq::filter);
    if s.len() > 0 {
        lemma_filter_len_le(s.drop_last());
    }
}

proof fn lemma_totals_le(e: Seq<(Seq<char>, Group)>)
    ensures
        pinged_total(e) <= service_total(e),
        widgeted_total(e) <= service_total(e),
    decreases e.len(),
{
    if e.len() > 0 {
        lemma_totals_le(e.drop_last());
        lemma_filter_len_le(e.last().1.services@);
    }
}

/// Counts groups and services of a configuration. `None` only where the
/// number of services does not fit in a `usize`.
pub fn compute_stats(config: &Dashboard) -> (r: Option<ConfigStats>)
    ensures
        match r {
            Some(st) => service_total(config.entries()) <= usize::MAX && st == ConfigStats::of(*config),
            None => service_total(config.entries()) > usize::MAX,
        },
{
    let ghost e = config.entries();
    let n = crate::config::group_count(&config.groups);
    let mut total: usize = 0;
    let mut ping: usize = 0;
    let mut widgets: usize = 0;
    let mut i: usize = 0;
    while i < n
        invariant
            n == e.len(),
            e == config.entries(),
            i <= n,
            total == service_total(e.subrange(0, i as int)),
            ping == pinged_total(e.subrange(0, i as int)),
            widgets == widgeted_total(e.subrange(0, i as int)),
        decreases n - i,
    {
        let ghost before = e.subrange(0, i as int);
        assert(e.subrange(0, i + 1).drop_last() =~= before);
        let entry = crate::config::group_at(&config.groups, i);
        let g = match entry {
            Some(kv) => kv.1,
            None => { return None; },
        };
        let len = g.services.len();
        if total > usize::MAX - len {
            proof {
                lemma_service_total_prefix(e, i as int + 1);
            }
            return None;
        }
        total = total + len;
        let ghost s = g.services@;
        let mut j: usize = 0;
        let ghost ping0 = ping;
        let ghost widgets0 = widgets;
        proof {
            lemma_totals_le(before);
        }
        while j < len
            invariant
                len == s.len(),
                s == g.services@,
                j <= len,
                ping0 == pinged_total(before),
                widgets0 == widgeted_total(before),
                pinged_total(before) <= service_total(before),
                widgeted_total(before) <= service_total(before),
                total == service_total(before) + len,
                total <= usize::MAX,
                ping == ping0 + pinged(s.subrange(0, j as int)).len(),
                widgets == widgets0 + widgeted(s.subrange(0, j as int)).len(),
            decreases len - j,
        {
            assert(s.subrange(0, j + 1).drop_last() =~= s.subrange(0, j as int));
            assert(s.subrange(0, j + 1).last() == s[j as int]);
            proof {
                reveal(Seq::filter);
            }
            assert(pinged(s.subrange(0, j + 1)) == if s[j as int].ping is Some {
                pinged(s.subrange(0, j as int)).push(s[j as int])
            } else {
                pinged(s.subrange(0, j as int))
            });
            assert(widgeted(s.subrange(0, j + 1)) == if s[j as int].widget is Some {
                widgeted(s.subrange(0, j as int)).push(s[j as int])
            } else {
                widgeted(s.subrange(0, j as int))
            });
            proof {
                lemma_filter_len_le(s.subrange(0, j as int));
            }
            if g.services[j].ping.is_some() {
                ping = ping + 1;
            }
            if g.services[j].widget.is_some() {
                widgets = widgets + 1;
            }
            j = j + 1;
        }
        assert(s.subrange(0, len as int) =~= s);
        i = i + 1;
    }
    assert(e.subrange(0, n as int) =~= e);
    Some(ConfigStats {
        total_groups: n,
        total_services: total,
        services_with_ping: ping,
        services_with_widgets: widgets,
    })
}

proof fn lemma_service_total_prefix(e: Seq<(Seq<char>, Group)>, k: int)
    requires
        0 <= k <= e.len(),
    ensures
        service_total(e.subrange(0, k)) <= service_total(e),
    decreases e.len() - k,
{
    if k < e.len() {
        lemma_service_total_prefix(e, k + 1);
        assert(e.subrange(0, k + 1).drop_last() =~= e.subrange(0, k));
    } else {
        assert(e.subrange(0, k) =~= e);
    }
}

} // verus!
