//! A clock. Its fragment shows the time when the page was built; the page
//! keeps it running.

use crate::config::{Service, Widget};
use crate::error::VestaError;
use crate::markup::{attr, push_attr, span_of, span_value};
use crate::text::{decimal, decimal_string};
use crate::widgets::WidgetHandler;
use vstd::prelude::*;

verus! {

/// The texts that the clock shows: time, date, year, time zone, UTC time.
pub struct ClockTexts {
    pub time: String,
    pub date: String,
    pub year: String,
    pub zone: String,
    pub utc: String,
}

/// Relies on chrono's `Local::now`, `Utc::now` and `format` with fixed,
/// valid patterns: the clock's texts now. They depend on the clock, so
/// nothing is claimed of them.
#[verifier::external_body]
fn clock_now() -> ClockTexts {
    let now = chrono::Local::now();
    let utc = chrono::Utc::now();
    ClockTexts {
        time: now.format("%H:%M:%S").to_string(),
        date: now.format("%A, %B %d").to_string(),
        year: now.format("%Y").to_string(),
        zone: now.format("%Z").to_string(),
        utc: utc.format("%H:%M:%S").to_string(),
    }
}

/// The live clock fragment showing the texts given.
pub open spec fn live_clock(time: Seq<char>, date: Seq<char>, year: Seq<char>, zone: Seq<char>, utc: Seq<char>) -> Seq<char> {
    "<div class=\"text-center space-y-2\"><div class=\"text-4xl font-mono font-bold text-white\">"@ + html_text(time)
        + "</div><div class=\"text-lg text-gray-300\">"@ + html_text(date)
        + "</div><div class=\"text-sm text-gray-400 space-y-1\"><div>"@ + html_text(year) + "</div><div>"@
        + html_text(zone) + "</div></div><div class=\"text-xs text-gray-500 pt-2 border-t border-slate-800\">UTC: "@
        + html_text(utc) + "</div></div>"@
}

/// The classes of the clock tile `width` columns wide.
pub open spec fn clock_classes(width: nat) -> Seq<char> {
    "bg-slate-900 border border-slate-800 rounded-xl p-4 h-full flex flex-col justify-center"@
        + if width > 1 { " sm:col-span-"@ + decimal(width) } else { Seq::empty() }
}

/// The clock fragment showing `t`.
pub open spec fn clock_fragment(service: Service, time: Seq<char>, date: Seq<char>, year: Seq<char>,
    zone: Seq<char>, utc: Seq<char>) -> Seq<char> {
    let h = span_of(service.height);
    "<div"@ + attr("class"@, clock_classes(span_of(service.width)))
        + attr("style"@, "grid-row: span "@ + decimal(h) + " / span "@ + decimal(h) + ";"@)
        + "><div data-clock class=\"text-center space-y-2\"><div data-clock-time class=\"text-4xl font-mono font-bold text-white\">"@
        + html_text(time) + "</div><div data-clock-date class=\"text-lg text-gray-300\">"@ + html_text(date)
        + "</div><div class=\"text-sm text-gray-400 space-y-1\"><div data-clock-year>"@ + html_text(year)
        + "</div><div data-clock-tz>"@ + html_text(zone)
        + "</div></div><div data-clock-utc class=\"text-xs text-gray-500 pt-2 border-t border-slate-800\">UTC: "@
        + html_text(utc) + "</div></div></div>"@
}

/// Text placed in an element: escaped.
pub open spec fn html_text(s: Seq<char>) -> Seq<char> {
    crate::text::html_escaped(s)
}

pub struct ClockWidget;

impl ClockWidget {
    pub fn new() -> Self {
        ClockWidget
    }

    /// The clock fragment for `service`, showing `t`.
    pub fn render_at(&self, service: &Service, t: &ClockTexts) -> (r: String)
        ensures
            r@ == clock_fragment(*service, t.time@, t.date@, t.year@, t.zone@, t.utc@),
    {
        let width = span_value(service.width);
        let height = span_value(service.height);
        let mut classes = String::from_str(
            "bg-slate-900 border border-slate-800 rounded-xl p-4 h-full flex flex-col justify-center",
        );
        if width > 1 {
            classes.append(" sm:col-span-");
            let d = decimal_string(width as u64);
            classes.append(d.as_str());
        }
        assert(classes@ =~= clock_classes(width as nat));
        let hs = decimal_string(height as u64);
        let mut style = String::from_str("grid-row: span ");
        style.append(hs.as_str());
        style.append(" / span ");
        style.append(hs.as_str());
        style.append(";");
        let mut s = String::from_str("<div");
        push_attr(&mut s, "class", classes.as_str());
        push_attr(&mut s, "style", style.as_str());
        s.append("><div data-clock class=\"text-center space-y-2\"><div data-clock-time class=\"text-4xl font-mono font-bold text-white\">");
        let e = crate::text::escape_html(t.time.as_str());
        s.append(e.as_str());
        s.append("</div><div data-clock-date class=\"text-lg text-gray-300\">");
        let e = crate::text::escape_html(t.date.as_str());
        s.append(e.as_str());
        s.append("</div><div class=\"text-sm text-gray-400 space-y-1\"><div data-clock-year>");
        let e = crate::text::escape_html(t.year.as_str());
        s.append(e.as_str());
        s.append("</div><div data-clock-tz>");
        let e = crate::text::escape_html(t.zone.as_str());
        s.append(e.as_str());
        s.append("</div></div><div data-clock-utc class=\"text-xs text-gray-500 pt-2 border-t border-slate-800\">UTC: ");
        let e = crate::text::escape_html(t.utc.as_str());
        s.append(e.as_str());
        s.append("</div></div></div>");
        s
    }

    /// The texts of the clock now.
    pub fn now_texts(&self) -> ClockTexts {
        clock_now()
    }

    /// The fragment that answers a data request, showing `t`.
    pub fn live_fragment(&self, t: &ClockTexts) -> (r: String)
        ensures
            r@ == live_clock(t.time@, t.date@, t.year@, t.zone@, t.utc@),
    {
        let mut s = String::from_str("<div class=\"text-center space-y-2\"><div class=\"text-4xl font-mono font-bold text-white\">");
        let e = crate::text::escape_html(t.time.as_str());
        s.append(e.as_str());
        s.append("</div><div class=\"text-lg text-gray-300\">");
        let e = crate::text::escape_html(t.date.as_str());
        s.append(e.as_str());
        s.append("</div><div class=\"text-sm text-gray-400 space-y-1\"><div>");
        let e = crate::text::escape_html(t.year.as_str());
        s.append(e.as_str());
        s.append("</div><div>");
        let e = crate::text::escape_html(t.zone.as_str());
        s.append(e.as_str());
        s.append("</div></div><div class=\"text-xs text-gray-500 pt-2 border-t border-slate-800\">UTC: ");
        let e = crate::text::escape_html(t.utc.as_str());
        s.append(e.as_str());
        s.append("</div></div>");
        s
    }
}

impl WidgetHandler for ClockWidget {
    open spec fn spec_name(&self) -> Seq<char> {
        "Clock"@
    }

    open spec fn accepts(&self, w: Widget) -> bool {
        true
    }

    open spec fn rejection(&self, w: Widget, e: VestaError) -> bool {
        false
    }

    open spec fn renders(&self, group_id: Seq<char>, service: Service, out: Seq<char>) -> bool {
        exists|time: Seq<char>, date: Seq<char>, year: Seq<char>, zone: Seq<char>, utc: Seq<char>|
            out == #[trigger] clock_fragment(service, time, date, year, zone, utc)
    }

    fn name(&self) -> (r: &'static str) {
        "Clock"
    }

    fn render(&self, group_id: &str, service: &Service) -> (r: String) {
        let t = self.now_texts();
        self.render_at(service, &t)
    }

    /// The clock takes no settings.
    fn validate_config(&self, widget: &Widget) -> (r: Result<(), VestaError>) {
        Ok(())
    }
}

} // verus!
