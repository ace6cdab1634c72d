//! A widget that lists links configured as numbered settings
//! (`link_0_title`, `link_0_url`, `link_0_icon`, `link_1_title`, ...).

use crate::widget_system::WidgetQuery;
use crate::config::{Dashboard, holds_entries, setting, setting_count, settings_of, Service, Widget};
use crate::error::VestaError;
use crate::markup::{attr, make_span_style, push_attr, push_spinner, span_of, span_style, spinner, widget_url};
use crate::text::{decimal, decimal_string, starts_with};
use crate::widgets::WidgetHandler;
use std::collections::HashMap;
use vstd::prelude::*;

verus! {

/// One configured link.
#[derive(Debug)]
pub struct QuickLink {
    pub title: String,
    pub url: String,
    pub icon: Option<String>,
}

/// The key of setting `suffix` of link `i`.
pub open spec fn link_key(i: nat, suffix: Seq<char>) -> Seq<char> {
    "link_"@ + decimal(i) + suffix
}

/// Whether link `i` has both a title and a URL.
pub open spec fn has_link(m: Map<Seq<char>, Seq<char>>, i: nat) -> bool {
    m.contains_key(link_key(i, "_title"@)) && m.contains_key(link_key(i, "_url"@))
}

/// Whether `l` holds the settings of link `i`.
pub open spec fn is_link(m: Map<Seq<char>, Seq<char>>, i: nat, l: QuickLink) -> bool {
    &&& l.title@ == m[link_key(i, "_title"@)]
    &&& l.url@ == m[link_key(i, "_url"@)]
    &&& match l.icon {
        Some(icon) => m.contains_key(link_key(i, "_icon"@)) && icon@ == m[link_key(i, "_icon"@)],
        None => !m.contains_key(link_key(i, "_icon"@)),
    }
}

/// Whether `links` are the links of `m`: links `0` to `k - 1`, where `k` is the
/// first index without a title or a URL (no map holds more links than settings).
pub open spec fn are_links(m: Map<Seq<char>, Seq<char>>, links: Seq<QuickLink>) -> bool {
    &&& forall|i: int| 0 <= i < links.len() ==> has_link(m, i as nat) && is_link(m, i as nat, #[trigger] links[i])
    &&& (links.len() == m.len() || !has_link(m, links.len()))
}

/// Whether `u` is an http or https URL.
pub open spec fn is_web_url(u: Seq<char>) -> bool {
    ("http://"@.len() <= u.len() && u.subrange(0, "http://"@.len() as int) == "http://"@)
    || ("https://"@.len() <= u.len() && u.subrange(0, "https://"@.len() as int) == "https://"@)
}

/// Whether links `0` to `i` all have a URL.
pub open spec fn urls_up_to(m: Map<Seq<char>, Seq<char>>, i: nat) -> bool {
    forall|j: nat| j <= i ==> m.contains_key(#[trigger] link_key(j, "_url"@))
}

/// Whether the URLs of the first `n` links, as far as they run without a
/// gap, are http or https URLs.
pub open spec fn urls_ok(m: Map<Seq<char>, Seq<char>>, n: nat) -> bool {
    forall|i: nat| i < n && #[trigger] urls_up_to(m, i) ==> is_web_url(m[link_key(i, "_url"@)])
}

/// Whether link `i` is the first, in the run of URLs without a gap, whose
/// URL is not an http or https URL.
pub open spec fn bad_url_at(m: Map<Seq<char>, Seq<char>>, i: nat) -> bool {
    i < m.len() && urls_ok(m, i) && urls_up_to(m, i) && !is_web_url(m[link_key(i, "_url"@)])
}

/// The message that refuses the URL of link `i`.
pub open spec fn invalid_url_message(i: nat) -> Seq<char> {
    "Invalid URL for link_"@ + decimal(i) + ": URLs must start with http:// or https://"@
}

/// Whether a QuickLinks widget's settings are acceptable.
pub open spec fn quick_links_accept(w: Widget) -> bool {
    match w.config {
        Some(c) => has_link(settings_of(c), 0) && urls_ok(settings_of(c), settings_of(c).len()),
        None => false,
    }
}

/// The key of setting `suffix` of link `i`.
fn link_key_string(i: usize, suffix: &str) -> (r: String)
    ensures
        r@ == link_key(i as nat, suffix@),
{
    let mut k = String::from_str("link_");
    let d = decimal_string(i as u64);
    k.append(d.as_str());
    k.append(suffix);
    k
}

pub struct QuickLinksWidget;

impl QuickLinksWidget {
    pub fn new() -> Self {
        QuickLinksWidget
    }

    /// The links of the widget of the service that `query` names in `config`;
    /// a service-not-found error where there is no such service.
    pub fn links_for(&self, config: &Dashboard, query: &WidgetQuery) -> (r: Result<Vec<QuickLink>, VestaError>)
        ensures
            match config.service_spec(query.group@, query.title@) {
                None => match r {
                    Err(VestaError::ServiceNotFound { group, title }) => group@ == query.group@ && title@ == query.title@,
                    _ => false,
                },
                Some(s) => match s.widget {
                    Some(w) => match w.config {
                        Some(c) => match r {
                            Ok(links) => links@.len() > 0 && are_links(settings_of(c), links@),
                            Err(e) => !has_link(settings_of(c), 0)
                                && e.is_internal("No links configured for QuickLinks widget"@),
                        },
                        None => r is Err && r->Err_0.is_internal("QuickLinks widget config not found"@),
                    },
                    None => r is Err && r->Err_0.is_internal("QuickLinks widget config not found"@),
                },
            },
    {
        let service = match config.get_service(query.group.as_str(), query.title.as_str()) {
            Some(s) => s,
            None => {
                return Err(VestaError::ServiceNotFound { group: query.group.clone(), title: query.title.clone() });
            },
        };
        match &service.widget {
            Some(w) => match &w.config {
                Some(c) => self.parse_config(c),
                None => Err(VestaError::internal("QuickLinks widget config not found")),
            },
            None => Err(VestaError::internal("QuickLinks widget config not found")),
        }
    }

    /// The links of the settings `config`; an error where there is none.
    pub fn parse_config(&self, config: &HashMap<String, String>) -> (r: Result<Vec<QuickLink>, VestaError>)
        ensures
            match r {
                Ok(links) => links@.len() > 0 && are_links(settings_of(*config), links@),
                Err(e) => !has_link(settings_of(*config), 0)
                    && e.is_internal("No links configured for QuickLinks widget"@),
            },
    {
        let ghost m = settings_of(*config);
        let n = setting_count(config);
        let mut links: Vec<QuickLink> = Vec::new();
        let mut i: usize = 0;
        let mut stop = false;
        while i < n && !stop
            invariant
                m == settings_of(*config),
                holds_entries(m, n),
                i <= n,
                links@.len() == i,
                stop ==> !has_link(m, i as nat),
                forall|j: nat| j < i ==> #[trigger] has_link(m, j),
                forall|j: int| 0 <= j < i ==> is_link(m, j as nat, #[trigger] links@[j]),
            decreases n - i + if stop { 0int } else { 1int },
        {
            let title_key = link_key_string(i, "_title");
            let url_key = link_key_string(i, "_url");
            let icon_key = link_key_string(i, "_icon");
            let title = setting(config, title_key.as_str());
            let url = setting(config, url_key.as_str());
            if title.is_none() || url.is_none() {
                stop = true;
            } else {
                let t = title.unwrap();
                let u = url.unwrap();
                let icon = match setting(config, icon_key.as_str()) {
                    Some(ic) => Some(ic.clone()),
                    None => None,
                };
                let link = QuickLink { title: t.clone(), url: u.clone(), icon };
                assert(has_link(m, i as nat));
                let ghost old_links = links@;
                let ghost lk = link;
                links.push(link);
                assert forall|j: int| 0 <= j < i + 1 implies is_link(m, j as nat, #[trigger] links@[j]) by {
                    if j < i {
                        assert(links@[j] == old_links[j]);
                    } else {
                        assert(links@[j] == lk);
                    }
                }
                i = i + 1;
            }
        }
        if links.len() == 0 {
            proof {
                if !stop {
                    m.dom().lemma_len0_is_empty();
                }
            }
            return Err(VestaError::internal("No links configured for QuickLinks widget"));
        }
        assert forall|j: int| 0 <= j < links@.len() implies has_link(m, j as nat) && is_link(m, j as nat, #[trigger] links@[j]) by {
            assert(has_link(m, j as nat));
        }
        Ok(links)
    }
}

/// The placeholder of the links tile of `service` in group `group_id`.
pub open spec fn links_placeholder(group_id: Seq<char>, service: Service) -> Seq<char> {
    "<div class=\"bg-slate-900 border border-slate-800 rounded-xl p-4 h-full overflow-y-auto\""@
        + attr("style"@, span_style(span_of(service.width), span_of(service.height)))
        + attr("hx-get"@, widget_url("QuickLinks"@, group_id, service.title@))
        + " hx-trigger=\"load\" hx-swap=\"innerHTML\">"@ + spinner() + "</div>"@
}

impl WidgetHandler for QuickLinksWidget {
    open spec fn spec_name(&self) -> Seq<char> {
        "QuickLinks"@
    }

    open spec fn accepts(&self, w: Widget) -> bool {
        quick_links_accept(w)
    }

    /// No settings, no first link, or the first URL, in the run without a
    /// gap, that is not an http or https URL.
    open spec fn rejection(&self, w: Widget, e: VestaError) -> bool {
        match w.config {
            None => e.is_internal("QuickLinks widget requires config"@),
            Some(c) => if !has_link(settings_of(c), 0) {
                e.is_internal("QuickLinks widget requires at least one link (link_0_title and link_0_url)"@)
            } else {
                exists|i: nat| bad_url_at(settings_of(c), i)
                    && e.is_internal(#[trigger] invalid_url_message(i))
            },
        }
    }

    open spec fn renders(&self, group_id: Seq<char>, service: Service, out: Seq<char>) -> bool {
        out == links_placeholder(group_id, service)
    }

    fn name(&self) -> (r: &'static str) {
        "QuickLinks"
    }

    fn render(&self, group_id: &str, service: &Service) -> (r: String) {
        let width = crate::markup::span_value(service.width);
        let height = crate::markup::span_value(service.height);
        let style = make_span_style(width, height);
        let url = crate::markup::make_widget_url(self.name(), group_id, service.title.as_str());
        let mut s = String::from_str("<div class=\"bg-slate-900 border border-slate-800 rounded-xl p-4 h-full overflow-y-auto\"");
        push_attr(&mut s, "style", style.as_str());
        push_attr(&mut s, "hx-get", url.as_str());
        s.append(" hx-trigger=\"load\" hx-swap=\"innerHTML\">");
        push_spinner(&mut s);
        s.append("</div>");
        s
    }

    /// Accepts settings with a first link (title and URL) whose URLs, as far
    /// as they run without a gap, all start with `http://` or `https://`.
    fn validate_config(&self, widget: &Widget) -> (r: Result<(), VestaError>)
    {
        let config = match &widget.config {
            Some(c) => c,
            None => {
                return Err(VestaError::internal("QuickLinks widget requires config"));
            },
        };
        let ghost m = settings_of(*config);
        let t0 = link_key_string(0, "_title");
        let u0 = link_key_string(0, "_url");
        assert(t0@ == link_key(0, "_title"@) && u0@ == link_key(0, "_url"@));
        if setting(config, t0.as_str()).is_none() || setting(config, u0.as_str()).is_none() {
            return Err(VestaError::internal(
                "QuickLinks widget requires at least one link (link_0_title and link_0_url)",
            ));
        }
        assert(has_link(m, 0));
        assert(widget.config == Some(*config));
        let n = setting_count(config);
        let mut i: usize = 0;
        while i < n
            invariant
                has_link(m, 0),
                widget.config == Some(*config),
                m == settings_of(*config),
                holds_entries(m, n),
                i <= n,
                urls_ok(m, i as nat),
                i > 0 ==> urls_up_to(m, (i - 1) as nat),
            decreases n - i,
        {
            let url_key = link_key_string(i, "_url");
            match setting(config, url_key.as_str()) {
                Some(u) => {
                    assert(urls_up_to(m, i as nat)) by {
                        assert forall|j: nat| j <= i implies m.contains_key(#[trigger] link_key(j, "_url"@)) by {
                            if j < i {
                                assert(urls_up_to(m, (i - 1) as nat));
                            }
                        }
                    }
                    if !starts_with(u.as_str(), "http://") && !starts_with(u.as_str(), "https://") {
                        assert(!is_web_url(m[link_key(i as nat, "_url"@)]));
                        assert(!urls_ok(m, n as nat));
                        let mut msg = String::from_str("Invalid URL for link_");
                        let d = decimal_string(i as u64);
                        msg.append(d.as_str());
                        msg.append(": URLs must start with http:// or https://");
                        assert(msg@ =~= invalid_url_message(i as nat));
                        assert(bad_url_at(m, i as nat));
                        let e = VestaError::Internal(msg);
                        assert(e.is_internal(invalid_url_message(i as nat)));
                        return Err(e);
                    }
                    i = i + 1;
                },
                None => {
                    assert(urls_ok(m, n as nat)) by {
                        assert forall|j: nat| j < n && #[trigger] urls_up_to(m, j) implies is_web_url(m[link_key(j, "_url"@)]) by {
                            if j >= i {
                                assert(m.contains_key(link_key(i as nat, "_url"@)));
                            }
                        }
                    }
                    return Ok(());
                },
            }
        }
        Ok(())
    }
}

} // verus!
