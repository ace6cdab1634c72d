//! Liveness indicators of services: the placeholder that asks for a check,
//! and the dot that shows its outcome.

use crate::markup::{attr, push_attr};
use vstd::prelude::*;

verus! {

/// The group and title of the service to check.
#[derive(Clone, Debug)]
pub struct QueryParams {
    pub group: String,
    pub title: String,
}

/// The placeholder that asks for the liveness check of a service.
pub open spec fn indicator(group_id: Seq<char>, title: Seq<char>) -> Seq<char> {
    "<div class=\"w-2 h-2 visibility-hidden\""@ + attr("hx-get"@, "/api/ping?group="@ + group_id + "&title="@ + title)
        + " hx-trigger=\"load\" hx-swap=\"outerHTML\"></div>"@
}

/// The placeholder that asks for the liveness check of the service titled
/// `title` in group `group_id`.
pub fn render_service_indicator(group_id: &str, title: &str) -> (r: String)
    ensures
        r@ == indicator(group_id@, title@),
{
    let mut url = String::from_str("/api/ping?group=");
    url.append(group_id);
    url.append("&title=");
    url.append(title);
    let mut s = String::from_str("<div class=\"w-2 h-2 visibility-hidden\"");
    push_attr(&mut s, "hx-get", url.as_str());
    s.append(" hx-trigger=\"load\" hx-swap=\"outerHTML\"></div>");
    s
}

/// The dot that shows the outcome of a liveness check: green where the
/// service answered with success, red otherwise.
pub fn status_dot(up: bool) -> (r: &'static str)
    ensures
        r@ == if up {
            "<div class=\"mr-4 w-2 h-2 bg-green-500 rounded-full\"></div>"@
        } else {
            "<div class=\"mr-4 w-2 h-2 bg-red-500 rounded-full\"></div>"@
        },
{
    if up {
        "<div class=\"mr-4 w-2 h-2 bg-green-500 rounded-full\"></div>"
    } else {
        "<div class=\"mr-4 w-2 h-2 bg-red-500 rounded-full\"></div>"
    }
}

} // verus!
