//! The configuration model: groups of services, each optionally rendered by
//! a widget plugin, with lookup helpers and derived statistics.

use indexmap::IndexMap;
use std::collections::HashMap;
use vstd::prelude::*;

verus! {

#[verifier::external_type_specification]
#[verifier::external_body]
#[verifier::reject_recursive_types(K)]
#[verifier::reject_recursive_types(V)]
#[verifier::reject_recursive_types(S)]
pub struct ExIndexMap<K, V, S>(IndexMap<K, V, S>);

/// Relies on `IndexMap`'s `Clone`, so that a configuration can be copied;
/// nothing is claimed of the copy.
pub assume_specification<K: Clone, V: Clone, S: Clone>[ <IndexMap<K, V, S> as Clone>::clone ](
    m: &IndexMap<K, V, S>,
) -> IndexMap<K, V, S>;

/// The groups of an ordered group map, in their order, each with its key.
pub uninterp spec fn group_entries(m: IndexMap<String, Group>) -> Seq<(Seq<char>, Group)>;

/// The settings held by a widget's free-form configuration map.
pub uninterp spec fn settings_of(m: HashMap<String, String>) -> Map<Seq<char>, Seq<char>>;

/// Relies on `IndexMap::len`: the number of entries.
#[verifier::external_body]
pub(crate) fn group_count(m: &IndexMap<String, Group>) -> (r: usize)
    ensures
        r == group_entries(*m).len(),
{
    m.len()
}

/// Relies on `IndexMap::get_index`: the entry at a position of the order.
#[verifier::external_body]
pub(crate) fn group_at(m: &IndexMap<String, Group>, i: usize) -> (r: Option<(&String, &Group)>)
    ensures
        match r {
            Some(kv) => i < group_entries(*m).len() && kv.0@ == group_entries(*m)[i as int].0
                && *kv.1 == group_entries(*m)[i as int].1,
            None => i >= group_entries(*m).len(),
        },
{
    m.get_index(i)
}

/// Relies on `IndexMap::get`: the value under a key (keys are unique, so the
/// first entry with that key is the only one).
#[verifier::external_body]
pub(crate) fn group_named<'a>(m: &'a IndexMap<String, Group>, key: &str) -> (r: Option<&'a Group>)
    ensures
        match r {
            Some(g) => lookup_group(group_entries(*m), key@) == Some(*g),
            None => lookup_group(group_entries(*m), key@) is None,
        },
{
    m.get(key)
}

/// Relies on `HashMap::get`: the value under a key, if there is one.
/// (vstd's own specification of it holds only for key types with a known
/// hashing model, which `String` lacks.)
#[verifier::external_body]
pub fn setting<'a>(m: &'a HashMap<String, String>, key: &str) -> (r: Option<&'a String>)
    ensures
        match r {
            Some(v) => settings_of(*m).contains_key(key@) && v@ == settings_of(*m)[key@],
            None => !settings_of(*m).contains_key(key@),
        },
{
    m.get(key)
}

/// Relies on `HashMap::len`: the number of settings, of which a map holds
/// finitely many. (vstd's own specification of it holds only for key types
/// with a known hashing model, which `String` lacks.)
#[verifier::external_body]
pub fn setting_count(m: &HashMap<String, String>) -> (r: usize)
    ensures
        holds_entries(settings_of(*m), r),
{
    m.len()
}

/// Whether map `m` has exactly `n` entries (and so finitely many).
pub open spec fn holds_entries(m: Map<Seq<char>, Seq<char>>, n: usize) -> bool {
    m.dom().finite() && m.len() == n
}

/// Equality of two string slices, by their characters.
pub fn str_eq(a: &str, b: &str) -> (r: bool)
    ensures
        r == (a@ == b@),
{
    a.to_owned() == b.to_owned()
}

/// The first group stored under key `k`.
pub open spec fn lookup_group(e: Seq<(Seq<char>, Group)>, k: Seq<char>) -> Option<Group>
    decreases e.len(),
{
    if e.len() == 0 {
        None
    } else if e[0].0 == k {
        Some(e[0].1)
    } else {
        lookup_group(e.drop_first(), k)
    }
}

/// The first service titled `t`.
pub open spec fn find_service(s: Seq<Service>, t: Seq<char>) -> Option<Service>
    decreases s.len(),
{
    if s.len() == 0 {
        None
    } else if s[0].title@ == t {
        Some(s[0])
    } else {
        find_service(s.drop_first(), t)
    }
}

/// The liveness-check target of a service.
#[derive(Clone, Debug)]
pub struct PingConfig {
    pub url: String,
}

/// A widget reference in the configuration: the plugin's name and its
/// free-form settings.
#[derive(Clone, Debug)]
pub struct Widget {
    pub name: String,
    pub config: Option<HashMap<String, String>>,
}

/// One tile of a group.
#[derive(Clone, Debug)]
pub struct Service {
    pub title: String,
    pub href: Option<String>,
    pub img_src: Option<String>,
    pub width: Option<u8>,
    pub height: Option<u8>,
    pub widget: Option<Widget>,
    pub ping: Option<PingConfig>,
}

/// A named, ordered collection of services.
#[derive(Clone, Debug)]
pub struct Group {
    pub name: String,
    pub columns: u8,
    pub services: Vec<Service>,
}

/// The whole configuration: groups under unique keys, in display order.
#[derive(Clone)]
pub struct Dashboard {
    pub groups: IndexMap<String, Group>,
}

impl Dashboard {
    /// The groups, in order, with their keys.
    pub open spec fn entries(self) -> Seq<(Seq<char>, Group)> {
        group_entries(self.groups)
    }

    /// The service that a lookup of `title` in group `group` finds.
    pub open spec fn service_spec(self, group: Seq<char>, title: Seq<char>) -> Option<Service> {
        match lookup_group(self.entries(), group) {
            Some(g) => find_service(g.services@, title),
            None => None,
        }
    }

    /// The widget of the service that a lookup finds.
    pub open spec fn widget_spec(self, group: Seq<char>, title: Seq<char>) -> Option<Widget> {
        match self.service_spec(group, title) {
            Some(s) => s.widget,
            None => None,
        }
    }

    pub fn get_service(&self, group: &str, title: &str) -> (r: Option<&Service>)
        ensures
            match r {
                Some(s) => self.service_spec(group@, title@) == Some(*s),
                None => self.service_spec(group@, title@) is None,
            },
    {
        get_service_info(self, group, title)
    }

    pub fn get_widget(&self, group: &str, title: &str) -> (r: Option<&Widget>)
        ensures
            match r {
                Some(w) => self.widget_spec(group@, title@) == Some(*w),
                None => self.widget_spec(group@, title@) is None,
            },
    {
        get_widget_info(self, group, title)
    }
}

/// The first service of `services` titled `title`.
pub fn find_in_services<'a>(services: &'a Vec<Service>, title: &str) -> (r: Option<&'a Service>)
    ensures
        match r {
            Some(s) => find_service(services@, title@) == Some(*s),
            None => find_service(services@, title@) is None,
        },
{
    let n = services.len();
    let mut i: usize = 0;
    assert(services@.subrange(0, n as int) =~= services@);
    while i < n
        invariant
            n == services@.len(),
            i <= n,
            find_service(services@, title@) == find_service(services@.subrange(i as int, n as int), title@),
        decreases n - i,
    {
        let s = &services[i];
        assert(services@.subrange(i as int, n as int).drop_first() =~= services@.subrange(i + 1, n as int));
        if str_eq(s.title.as_str(), title) {
            return Some(s);
        }
        i = i + 1;
    }
    None
}

/// The service titled `title` in group `group`: the first such service in
/// declaration order, or `None` where the group or the title is absent.
pub fn get_service_info<'a>(config: &'a Dashboard, group: &str, title: &str) -> (r: Option<&'a Service>)
    ensures
        match r {
            Some(s) => config.service_spec(group@, title@) == Some(*s),
            None => config.service_spec(group@, title@) is None,
        },
{
    match group_named(&config.groups, group) {
        Some(g) => find_in_services(&g.services, title),
        None => None,
    }
}

/// The widget of the service that `get_service_info` finds, if it has one.
pub fn get_widget_info<'a>(config: &'a Dashboard, group: &str, title: &str) -> (r: Option<&'a Widget>)
    ensures
        match r {
            Some(w) => config.widget_spec(group@, title@) == Some(*w),
            None => config.widget_spec(group@, title@) is None,
        },
{
    match get_service_info(config, group, title) {
        Some(s) => match &s.widget {
            Some(w) => Some(w),
            None => None,
        },
        None => None,
    }
}

} // verus!
