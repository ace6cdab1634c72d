//! Building HTML fragments as text: elements, escaped attributes and the
//! placeholders that widgets render before their data arrives.

use crate::text::{decimal, escape_html, html_escaped};
use vstd::prelude::*;

verus! {

/// An attribute `name="value"`, with the value escaped, after a space.
pub open spec fn attr(name: Seq<char>, value: Seq<char>) -> Seq<char> {
    " "@ + name + "=\""@ + html_escaped(value) + "\""@
}

/// The URL from which a page fetches the live content of a widget.
pub open spec fn widget_url(widget: Seq<char>, group: Seq<char>, title: Seq<char>) -> Seq<char> {
    "/api/widgets/"@ + widget + "?group="@ + group + "&title="@ + title
}

/// A spinning indicator, centred.
pub open spec fn spinner() -> Seq<char> {
    "<div class=\"flex items-center justify-center h-full\"><div class=\"animate-spin rounded-full h-8 w-8 border-b-2 border-blue-500\"></div></div>"@
}

/// Appends an attribute with an escaped value.
pub fn push_attr(s: &mut String, name: &str, value: &str)
    ensures
        final(s)@ == old(s)@ + attr(name@, value@),
{
    s.append(" ");
    s.append(name);
    s.append("=\"");
    let v = escape_html(value);
    s.append(v.as_str());
    s.append("\"");
    assert(final(s)@ =~= old(s)@ + attr(name@, value@));
}

/// The URL from which a page fetches the live content of a widget.
pub fn make_widget_url(widget: &str, group: &str, title: &str) -> (r: String)
    ensures
        r@ == widget_url(widget@, group@, title@),
{
    let mut s = String::from_str("/api/widgets/");
    s.append(widget);
    s.append("?group=");
    s.append(group);
    s.append("&title=");
    s.append(title);
    s
}

/// Appends a spinning indicator.
pub fn push_spinner(s: &mut String)
    ensures
        final(s)@ == old(s)@ + spinner(),
{
    s.append("<div class=\"flex items-center justify-center h-full\"><div class=\"animate-spin rounded-full h-8 w-8 border-b-2 border-blue-500\"></div></div>");
}

/// The numeral of a width or height, where an absent one counts as one.
pub open spec fn span_of(v: Option<u8>) -> nat {
    match v {
        Some(x) => x as nat,
        None => 1,
    }
}

/// A width or height, where an absent one counts as one.
pub fn span_value(v: Option<u8>) -> (r: u8)
    ensures
        r as nat == span_of(v),
{
    match v {
        Some(x) => x,
        None => 1,
    }
}

/// The inline style that makes a tile span `w` columns and `h` rows.
pub open spec fn span_style(w: nat, h: nat) -> Seq<char> {
    "grid-column: span "@ + decimal(w) + " / span "@ + decimal(w) + "; grid-row: span "@ + decimal(h)
        + " / span "@ + decimal(h) + ";"@
}

/// The inline style that makes a tile span `w` columns and `h` rows.
pub fn make_span_style(w: u8, h: u8) -> (r: String)
    ensures
        r@ == span_style(w as nat, h as nat),
{
    let ws = crate::text::decimal_string(w as u64);
    let hs = crate::text::decimal_string(h as u64);
    let mut s = String::from_str("grid-column: span ");
    s.append(ws.as_str());
    s.append(" / span ");
    s.append(ws.as_str());
    s.append("; grid-row: span ");
    s.append(hs.as_str());
    s.append(" / span ");
    s.append(hs.as_str());
    s.append(";");
    s
}

} // verus!
