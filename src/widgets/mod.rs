//! The widget plugins, the contract each of them meets, and the tile
//! container they share.

pub mod clock_widget;
pub mod quick_links_widget;
pub mod sonarr_calendar;
pub mod sonarr_calendar_widget;
pub mod system_stats_widget;
pub mod weather_widget;

use crate::config::{setting, settings_of, Service, Widget};
use crate::error::VestaError;
use crate::markup::{attr, make_widget_url, push_attr, push_spinner, span_of, spinner, widget_url};
use crate::text::{decimal, decimal_string, parse_u64, u64_text};
use vstd::prelude::*;

verus! {

/// What every widget plugin offers: a stable name, a placeholder fragment
/// that never fails and performs no I/O, and a check of its settings.
pub trait WidgetHandler {
    /// The plugin's name, which configurations use to select it.
    spec fn spec_name(&self) -> Seq<char>;

    /// Whether the plugin accepts the settings of `w`.
    spec fn accepts(&self, w: Widget) -> bool;

    /// Whether `e` is the error with which the plugin refuses the settings of `w`.
    spec fn rejection(&self, w: Widget, e: VestaError) -> bool;

    /// Whether `out` is the plugin's placeholder for `service` in group `group_id`.
    spec fn renders(&self, group_id: Seq<char>, service: Service, out: Seq<char>) -> bool;

    fn name(&self) -> (r: &'static str)
        ensures
            r@ == self.spec_name(),
    ;

    fn render(&self, group_id: &str, service: &Service) -> (r: String)
        ensures
            self.renders(group_id@, *service, r@),
    ;

    fn validate_config(&self, widget: &Widget) -> (r: Result<(), VestaError>)
        ensures
            match r {
                Ok(()) => self.accepts(*widget),
                Err(e) => !self.accepts(*widget) && self.rejection(*widget, e),
            },
    ;
}

/// The refresh interval that the settings of the widget of `service` give,
/// or `default` where they give none that reads as a number.
pub open spec fn refresh_setting(service: Service, default: u64) -> u64 {
    match service.widget {
        Some(w) => match w.config {
            Some(c) => if settings_of(c).contains_key("refresh_interval"@) {
                match u64_text(settings_of(c)["refresh_interval"@]) {
                    Some(v) => v,
                    None => default,
                }
            } else {
                default
            },
            None => default,
        },
        None => default,
    }
}

/// The refresh interval in the settings of the widget of `service`, or
/// `default`.
pub fn refresh_interval_of(service: &Service, default: u64) -> (r: u64)
    ensures
        r == refresh_setting(*service, default),
{
    if let Some(w) = &service.widget {
        if let Some(c) = &w.config {
            if let Some(v) = setting(c, "refresh_interval") {
                if let Some(n) = parse_u64(v.as_str()) {
                    return n;
                }
            }
        }
    }
    default
}

/// A placeholder that fetches the live content of widget `widget` for the
/// service titled `title` in group `group`, on the events of `trigger`.
pub open spec fn loader(widget: Seq<char>, group: Seq<char>, title: Seq<char>, trigger: Seq<char>) -> Seq<char> {
    "<div class=\"h-full\""@ + attr("hx-get"@, widget_url(widget, group, title)) + attr("hx-trigger"@, trigger)
        + " hx-swap=\"innerHTML\">"@ + spinner() + "</div>"@
}

/// A placeholder that fetches the live content of a widget.
pub fn make_loader(widget: &str, group: &str, title: &str, trigger: &str) -> (r: String)
    ensures
        r@ == loader(widget@, group@, title@, trigger@),
{
    let url = make_widget_url(widget, group, title);
    let mut s = String::from_str("<div class=\"h-full\"");
    push_attr(&mut s, "hx-get", url.as_str());
    push_attr(&mut s, "hx-trigger", trigger);
    s.append(" hx-swap=\"innerHTML\">");
    push_spinner(&mut s);
    s.append("</div>");
    s
}

/// The trigger of a placeholder that loads at once and again every `n` seconds.
pub open spec fn every(n: nat) -> Seq<char> {
    "load, every "@ + decimal(n) + "s"@
}

/// The trigger of a placeholder that loads at once and again every `n` seconds.
pub fn make_every(n: u64) -> (r: String)
    ensures
        r@ == every(n as nat),
{
    let mut s = String::from_str("load, every ");
    let d = decimal_string(n);
    s.append(d.as_str());
    s.append("s");
    s
}

/// The grid classes of a tile `width` columns wide and `height` rows high.
pub open spec fn grid_classes(width: nat, height: nat) -> Seq<char> {
    (if width > 1 { " col-span-"@ + decimal(width) } else { Seq::empty() })
        + (if height > 1 { " row-span-"@ + decimal(height) } else { Seq::empty() })
}

/// The shared tile container around `content`.
pub open spec fn container(width: Option<u8>, height: Option<u8>, extra: Seq<char>, content: Seq<char>) -> Seq<char> {
    "<div"@ + attr(
        "class"@,
        "bg-zinc-900 border border-zinc-800 rounded-lg p-4 h-full"@ + grid_classes(span_of(width), span_of(height))
            + " "@ + extra,
    ) + ">"@ + content + "</div>"@
}

/// The grid classes of a tile `width` columns wide and `height` rows high.
pub fn grid_span_classes(width: usize, height: usize) -> (r: String)
    ensures
        r@ == grid_classes(width as nat, height as nat),
{
    let mut classes = String::new();
    if width > 1 {
        classes.append(" col-span-");
        let d = decimal_string(width as u64);
        classes.append(d.as_str());
    }
    if height > 1 {
        classes.append(" row-span-");
        let d = decimal_string(height as u64);
        classes.append(d.as_str());
    }
    assert(classes@ =~= grid_classes(width as nat, height as nat));
    classes
}

/// The shared tile container around the fragment `content`.
pub fn widget_container(width: Option<u8>, height: Option<u8>, extra_classes: &str, content: &str) -> (r: String)
    ensures
        r@ == container(width, height, extra_classes@, content@),
{
    let w = crate::markup::span_value(width) as usize;
    let h = crate::markup::span_value(height) as usize;
    let grid = grid_span_classes(w, h);
    let mut classes = String::from_str("bg-zinc-900 border border-zinc-800 rounded-lg p-4 h-full");
    classes.append(grid.as_str());
    classes.append(" ");
    classes.append(extra_classes);
    let mut s = String::from_str("<div");
    push_attr(&mut s, "class", classes.as_str());
    s.append(">");
    s.append(content);
    s.append("</div>");
    s
}

} // verus!
