//! The rules of the episode calendar fed by a Sonarr server: credentials,
//! episode states, labels and grouping by day. Instants are whole seconds
//! since the Unix epoch, in UTC.

use crate::config::{setting, settings_of, Dashboard, Service, Widget};
use crate::markup::{attr, push_attr, span_of, span_value};
use crate::error::VestaError;
use crate::text::{decimal, decimal2, decimal2_string, decimal_string};
use indexmap::IndexMap;
use std::collections::HashSet;
use vstd::prelude::*;

verus! {

broadcast use vstd::std_specs::hash::group_hash_axioms;

/// A series as the calendar reports it.
#[derive(Clone, Debug)]
pub struct Series {
    pub title: String,
    pub title_slug: String,
    /// Length of an episode, in minutes.
    pub runtime: i64,
}

/// One episode of the calendar.
#[derive(Clone, Debug)]
pub struct CalendarEntry {
    pub series_id: u32,
    pub season_number: u8,
    pub episode_number: u32,
    pub title: Option<String>,
    /// When the episode airs, in seconds since the Unix epoch.
    pub air_date_utc: i64,
    pub series: Series,
    pub has_file: bool,
    pub monitored: bool,
    /// Whether the series has a download in progress.
    pub is_downloading: bool,
}

/// One record of the download queue.
#[derive(Clone, Copy, Debug)]
pub struct DownloadRecord {
    pub series_id: u32,
}

/// The download queue.
#[derive(Clone, Debug)]
pub struct DownloadQueue {
    pub records: Vec<DownloadRecord>,
}

/// The group and title of the service whose calendar is asked for.
#[derive(Clone, Debug)]
pub struct QueryParams {
    pub group: String,
    pub title: String,
}

/// The instant `minutes` minutes after `date`.
pub open spec fn plus_minutes(date: int, minutes: int) -> int {
    date + minutes * 60
}

/// Whether the end of an episode, `runtime` minutes after it airs, is an
/// instant that can be represented.
pub open spec fn end_fits(e: CalendarEntry) -> bool {
    i64::MIN <= plus_minutes(e.air_date_utc as int, e.series.runtime as int) <= i64::MAX
}

/// The state of an episode at instant `now`.
pub open spec fn entry_class(e: CalendarEntry, now: int) -> Seq<char> {
    let aired = plus_minutes(e.air_date_utc as int, e.series.runtime as int);
    if now < e.air_date_utc {
        "unaired"@
    } else if e.is_downloading {
        "downloading"@
    } else if e.has_file {
        "downloaded"@
    } else if now <= aired {
        "airing"@
    } else {
        "missing"@
    }
}

/// The label of an episode: season, `x`, and the episode number on at least
/// two digits.
pub open spec fn episode_label(e: CalendarEntry) -> Seq<char> {
    decimal(e.season_number as nat) + "x"@ + decimal2(e.episode_number as nat)
}

/// Whether the calendar settings of `w` hold a server URL and an API key.
pub open spec fn has_credentials(w: Widget) -> bool {
    match w.config {
        Some(c) => settings_of(c).contains_key("url"@) && settings_of(c).contains_key("key"@),
        None => false,
    }
}

/// The entries' days grouped: each distinct day once, in order of first
/// appearance, with the positions of its entries in increasing order.
pub open spec fn grouped_days(days: Seq<Seq<char>>) -> Seq<(Seq<char>, Seq<usize>)>
    decreases days.len(),
{
    if days.len() == 0 {
        Seq::empty()
    } else {
        let prev = grouped_days(days.drop_last());
        let d = days.last();
        let n = (days.len() - 1) as usize;
        match day_position(prev, d) {
            Some(p) => prev.update(p, (d, prev[p].1.push(n))),
            None => prev.push((d, seq![n])),
        }
    }
}

/// The position of day `d` in `g`, if it is there.
pub open spec fn day_position(g: Seq<(Seq<char>, Seq<usize>)>, d: Seq<char>) -> Option<int>
    decreases g.len(),
{
    if g.len() == 0 {
        None
    } else if g[0].0 == d {
        Some(0)
    } else {
        match day_position(g.drop_first(), d) {
            Some(p) => Some(p + 1),
            None => None,
        }
    }
}

proof fn lemma_day_position(g: Seq<(Seq<char>, Seq<usize>)>, d: Seq<char>)
    ensures
        match day_position(g, d) {
            Some(p) => 0 <= p < g.len() && g[p].0 == d && forall|q: int| 0 <= q < p ==> g[q].0 != d,
            None => forall|q: int| 0 <= q < g.len() ==> g[q].0 != d,
        },
    decreases g.len(),
{
    if g.len() > 0 {
        lemma_day_position(g.drop_first(), d);
        assert forall|q: int| 0 < q < g.len() implies g[q] == g.drop_first()[q - 1] by {}
    }
}

/// The days of a calendar in order, each with the positions of its entries.
pub uninterp spec fn day_entries(m: IndexMap<String, Vec<usize>>) -> Seq<(Seq<char>, Seq<usize>)>;

/// Relies on `IndexMap::new`: an empty map.
#[verifier::external_body]
fn new_days() -> (r: IndexMap<String, Vec<usize>>)
    ensures
        day_entries(r) == Seq::<(Seq<char>, Seq<usize>)>::empty(),
{
    IndexMap::new()
}

/// Relies on `IndexMap::get_index_of`: the position of a key (keys are
/// unique, so the first entry with it is the only one).
#[verifier::external_body]
fn day_index(m: &IndexMap<String, Vec<usize>>, day: &str) -> (r: Option<usize>)
    ensures
        match r {
            Some(p) => p < day_entries(*m).len() && day_entries(*m)[p as int].0 == day@
                && forall|q: int| 0 <= q < p ==> day_entries(*m)[q].0 != day@,
            None => forall|q: int| 0 <= q < day_entries(*m).len() ==> day_entries(*m)[q].0 != day@,
        },
{
    m.get_index_of(day)
}

/// Relies on `IndexMap`'s indexing by position (which panics past the end),
/// then `Vec::push`: appends `pos` to the value at position `p`.
#[verifier::external_body]
fn push_at(m: &mut IndexMap<String, Vec<usize>>, p: usize, pos: usize)
    requires
        p < day_entries(*old(m)).len(),
    ensures
        day_entries(*final(m)) == day_entries(*old(m)).update(
            p as int,
            (day_entries(*old(m))[p as int].0, day_entries(*old(m))[p as int].1.push(pos)),
        ),
{
    m[p].push(pos);
}

/// Relies on `IndexMap::insert` of a key not yet present: the entry goes
/// last.
#[verifier::external_body]
fn push_day(m: &mut IndexMap<String, Vec<usize>>, day: String, pos: usize)
    requires
        forall|q: int| 0 <= q < day_entries(*old(m)).len() ==> day_entries(*old(m))[q].0 != day@,
    ensures
        day_entries(*final(m)) == day_entries(*old(m)).push((day@, seq![pos])),
{
    m.insert(day, vec![pos]);
}

/// The placeholder of a calendar tile that loads from the calendar endpoint.
pub open spec fn calendar_placeholder(group_id: Seq<char>, service: Service) -> Seq<char> {
    let w = span_of(service.width);
    let h = span_of(service.height);
    "<div"@ + attr("class"@, "overflow-y-auto text-xs bg-slate-900 border border-slate-800 rounded-xl py-2 flex flex-col col-span-"@
        + decimal(w) + " row-span-"@ + decimal(h))
        + attr("style"@, "height: "@ + decimal((h * 6 + (h - 1)) as nat) + "rem;"@)
        + attr("hx-get"@, "/api/sonarr-calendar?group="@ + group_id + "&title="@ + service.title@)
        + " hx-trigger=\"load\" hx-swap=\"innerHTML\"></div>"@
}

/// The placeholder of a calendar tile, seven rem high per row it spans
/// less one rem.
pub fn render_sonarr_calendar_widget(group_id: &str, service_info: &Service) -> (r: String)
    requires
        span_of(service_info.height) >= 1,
    ensures
        r@ == calendar_placeholder(group_id@, *service_info),
{
    let w = span_value(service_info.width);
    let h = span_value(service_info.height);
    let container_height: u64 = (h as u64) * 6 + (h as u64 - 1);
    let mut classes = String::from_str("overflow-y-auto text-xs bg-slate-900 border border-slate-800 rounded-xl py-2 flex flex-col col-span-");
    let ws = decimal_string(w as u64);
    classes.append(ws.as_str());
    classes.append(" row-span-");
    let hs = decimal_string(h as u64);
    classes.append(hs.as_str());
    let mut style = String::from_str("height: ");
    let cs = decimal_string(container_height);
    style.append(cs.as_str());
    style.append("rem;");
    let mut url = String::from_str("/api/sonarr-calendar?group=");
    url.append(group_id);
    url.append("&title=");
    url.append(service_info.title.as_str());
    let mut s = String::from_str("<div");
    push_attr(&mut s, "class", classes.as_str());
    push_attr(&mut s, "style", style.as_str());
    push_attr(&mut s, "hx-get", url.as_str());
    s.append(" hx-trigger=\"load\" hx-swap=\"innerHTML\"></div>");
    s
}

/// The server URL and API key of the calendar widget of the service titled
/// `params.title` in group `params.group`.
pub fn calendar_credentials<'a>(config: &'a Dashboard, params: &QueryParams) -> (r: Result<(&'a str, &'a str), VestaError>)
    ensures
        match config.widget_spec(params.group@, params.title@) {
            Some(w) => match r {
                Ok((url, key)) => has_credentials(w) && url@ == settings_of(w.config->Some_0)["url"@]
                    && key@ == settings_of(w.config->Some_0)["key"@],
                Err(e) => !has_credentials(w) && e.is_missing_credentials("url or key"@),
            },
            None => match r {
                Err(VestaError::WidgetNotFound { group, title }) => group@ == params.group@ && title@ == params.title@,
                _ => false,
            },
        },
{
    match config.get_widget(params.group.as_str(), params.title.as_str()) {
        Some(w) => get_widget_credentials(w),
        None => Err(VestaError::WidgetNotFound { group: params.group.clone(), title: params.title.clone() }),
    }
}

/// The URL and API key of the calendar settings of `widget_info`.
pub fn get_widget_credentials(widget_info: &Widget) -> (r: Result<(&str, &str), VestaError>)
    ensures
        match r {
            Ok((url, key)) => has_credentials(*widget_info) && url@ == settings_of(widget_info.config->Some_0)["url"@]
                && key@ == settings_of(widget_info.config->Some_0)["key"@],
            Err(e) => !has_credentials(*widget_info)
                && e.is_missing_credentials("url or key"@),
        },
{
    if let Some(config) = &widget_info.config {
        if let Some(url) = setting(config, "url") {
            if let Some(key) = setting(config, "key") {
                return Ok((url.as_str(), key.as_str()));
            }
        }
    }
    Err(VestaError::missing_credentials("url or key"))
}

/// The instant `minutes` minutes after `date`.
pub fn add_minutes(date: i64, minutes: i64) -> (r: i64)
    requires
        i64::MIN <= plus_minutes(date as int, minutes as int) <= i64::MAX,
    ensures
        r == plus_minutes(date as int, minutes as int),
{
    let wide: i128 = date as i128 + minutes as i128 * 60;
    wide as i64
}

/// The label of an episode, such as `3x07`.
pub fn format_episode(entry: &CalendarEntry) -> (r: String)
    ensures
        r@ == episode_label(*entry),
{
    let mut s = decimal_string(entry.season_number as u64);
    s.append("x");
    let e = decimal2_string(entry.episode_number as u64);
    s.append(e.as_str());
    s
}

/// The page of a series on the Sonarr server at `sonarr_url`.
pub fn format_series_url(sonarr_url: &str, title_slug: &str) -> (r: String)
    ensures
        r@ == sonarr_url@ + "/series/"@ + title_slug@,
{
    let mut s = String::from_str(sonarr_url);
    s.append("/series/");
    s.append(title_slug);
    s
}

/// The state of an episode at instant `current_date`: not aired yet, being
/// downloaded, downloaded, airing, or missing once it has ended without a file.
pub fn get_entry_class(entry: &CalendarEntry, current_date: i64) -> (r: &'static str)
    requires
        end_fits(*entry),
    ensures
        r@ == entry_class(*entry, current_date as int),
{
    let aired_date = add_minutes(entry.air_date_utc, entry.series.runtime);
    if current_date < entry.air_date_utc {
        "unaired"
    } else if entry.is_downloading {
        "downloading"
    } else if entry.has_file {
        "downloaded"
    } else if current_date >= entry.air_date_utc && current_date <= aired_date {
        "airing"
    } else {
        "missing"
    }
}

/// Whether the end of an episode is an instant that can be represented.
pub fn end_representable(entry: &CalendarEntry) -> (r: bool)
    ensures
        r == end_fits(*entry),
{
    let wide: i128 = entry.air_date_utc as i128 + entry.series.runtime as i128 * 60;
    i64::MIN as i128 <= wide && wide <= i64::MAX as i128
}

/// The state of an episode at instant `current_date`, or nothing where its
/// end cannot be represented.
pub fn entry_class_at(entry: &CalendarEntry, current_date: i64) -> (r: &'static str)
    ensures
        r@ == if end_fits(*entry) { entry_class(*entry, current_date as int) } else { ""@ },
{
    if end_representable(entry) {
        get_entry_class(entry, current_date)
    } else {
        ""
    }
}

/// The series that have a download in the queue.
pub fn downloading_series(queue: &DownloadQueue) -> (r: HashSet<u32>)
    ensures
        forall|id: u32| r@.contains(id) <==> exists|k: int| 0 <= k < queue.records@.len() && #[trigger] queue.records@[k].series_id == id,
{
    let mut ids: HashSet<u32> = HashSet::new();
    let n = queue.records.len();
    let mut i: usize = 0;
    while i < n
        invariant
            n == queue.records@.len(),
            i <= n,
            forall|id: u32| ids@.contains(id) <==> exists|k: int| 0 <= k < i && #[trigger] queue.records@[k].series_id == id,
        decreases n - i,
    {
        let id = queue.records[i].series_id;
        ids.insert(id);
        assert forall|x: u32| ids@.contains(x) <==> exists|k: int| 0 <= k < i + 1 && #[trigger] queue.records@[k].series_id == x by {
            if x == id {
                assert(queue.records@[i as int].series_id == x);
            }
        }
        i = i + 1;
    }
    ids
}

/// Marks each entry whose series has a download in the queue, and clears the
/// mark of every other entry.
pub fn mark_downloading(calendar: &mut Vec<CalendarEntry>, downloading: &HashSet<u32>)
    ensures
        final(calendar)@.len() == old(calendar)@.len(),
        forall|k: int| 0 <= k < old(calendar)@.len() ==> #[trigger] final(calendar)@[k] == (CalendarEntry {
            is_downloading: downloading@.contains(old(calendar)@[k].series_id),
            ..old(calendar)@[k]
        }),
{
    let n = calendar.len();
    let mut i: usize = 0;
    while i < n
        invariant
            n == old(calendar)@.len(),
            calendar@.len() == n,
            i <= n,
            forall|k: int| 0 <= k < i ==> #[trigger] calendar@[k] == (CalendarEntry {
                is_downloading: downloading@.contains(old(calendar)@[k].series_id),
                ..old(calendar)@[k]
            }),
            forall|k: int| i <= k < n ==> #[trigger] calendar@[k] == old(calendar)@[k],
        decreases n - i,
    {
        let id = calendar[i].series_id;
        let flag = downloading.contains(&id);
        calendar[i].is_downloading = flag;
        i = i + 1;
    }
}

/// The positions of the entries grouped by their day (`days[k]` is the day
/// of entry `k`): each distinct day once, in order of first appearance.
pub fn group_by_day(days: &Vec<String>) -> (r: IndexMap<String, Vec<usize>>)
    ensures
        day_entries(r) == grouped_days(days@.map_values(|d: String| d@)),
{
    let ghost dv = days@.map_values(|d: String| d@);
    let mut groups = new_days();
    let n = days.len();
    let mut i: usize = 0;
    while i < n
        invariant
            n == days@.len(),
            dv == days@.map_values(|d: String| d@),
            i <= n,
            day_entries(groups) == grouped_days(dv.subrange(0, i as int)),
        decreases n - i,
    {
        let ghost prev = grouped_days(dv.subrange(0, i as int));
        assert(dv.subrange(0, i + 1).drop_last() =~= dv.subrange(0, i as int));
        let day = &days[i];
        assert(dv.subrange(0, i + 1).last() == day@);
        proof {
            lemma_day_position(prev, day@);
        }
        match day_index(&groups, day.as_str()) {
            Some(p) => {
                assert(day_position(prev, day@) == Some(p as int));
                push_at(&mut groups, p, i);
            },
            None => {
                assert(day_position(prev, day@) is None);
                push_day(&mut groups, day.clone(), i);
            },
        }
        i = i + 1;
    }
    assert(dv.subrange(0, n as int) =~= dv);
    groups
}

} // verus!
