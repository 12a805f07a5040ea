use vstd::prelude::*;

use crate::app_manager::state::AppManager;
use crate::config::models::{app_ids, lookup_app, AppConfig, LinkRoutingRule, OrblyConfig};
use crate::text::{contains_text, lowercase, texts};
use crate::utils::{wildcard_match, wildcard_matches};
use crate::web::{json_quoted, json_string, parsed_scheme, url_scheme};

verus! {

/// Why a link is not followed.
#[derive(Debug, PartialEq, Eq)]
pub enum LinkError {
    /// The text is no URL.
    InvalidUrl,
    /// The URL has a scheme that is not followed.
    SchemeNotAllowed { scheme: String },
}

impl LinkError {
    /// The error in words.
    pub fn message(&self) -> (m: String)
        ensures
            m@ == match *self {
                LinkError::InvalidUrl => "Invalid URL"@,
                LinkError::SchemeNotAllowed { scheme } => "Scheme '"@ + scheme@
                    + "' is not allowed"@,
            },
    {
        match self {
            LinkError::InvalidUrl => String::from_str("Invalid URL"),
            LinkError::SchemeNotAllowed { scheme } => String::from_str("Scheme '").concat(
                scheme.as_str(),
            ).concat("' is not allowed"),
        }
    }
}

/// Where a link goes.
#[derive(Debug, PartialEq, Eq)]
pub enum LinkRoute {
    /// To the system browser.
    External,
    /// To an instance that has no surface: the URL waits for the instance to
    /// wake, and the user interface switches to it.
    Queued { target: String },
    /// To an instance: `script`, if there is one, makes its surface go to the
    /// URL, and the user interface switches to the instance if `switch` is set.
    Navigate { target: String, script: Option<String>, switch: bool },
}

/// The mathematical value of a [`LinkRoute`].
pub enum RouteView {
    External,
    Queued { target: Seq<char> },
    Navigate { target: Seq<char>, script: Option<Seq<char>>, switch: bool },
}

impl View for LinkRoute {
    type V = RouteView;

    open spec fn view(&self) -> RouteView {
        match *self {
            LinkRoute::External => RouteView::External,
            LinkRoute::Queued { target } => RouteView::Queued { target: target@ },
            LinkRoute::Navigate { target, script, switch } => RouteView::Navigate {
                target: target@,
                script: match script {
                    Some(s) => Some(s@),
                    None => None,
                },
                switch,
            },
        }
    }
}

/// Whether the rule applies to the URL: its pattern matches, letter case aside.
pub open spec fn rule_matches(rule: LinkRoutingRule, url: Seq<char>) -> bool {
    wildcard_matches(lowercase(rule.pattern@), lowercase(url))
}

/// Whether the rule decides where the URL goes: it applies, and its target
/// is the system browser or a configured instance.
pub open spec fn rule_decides(rule: LinkRoutingRule, apps: Seq<AppConfig>, url: Seq<char>) -> bool {
    rule_matches(rule, url) && (rule.target@ == "external"@ || app_ids(apps).contains(rule.target@))
}

/// The script that makes a surface go to `url`.
pub open spec fn navigation_script(url: Seq<char>) -> Seq<char> {
    "window.location.href = "@ + json_quoted(url) + ";"@
}

/// The script that makes a surface go to `url`.
pub fn navigate_script(url: &str) -> (script: String)
    ensures
        script@ == navigation_script(url@),
{
    String::from_str("window.location.href = ").concat(json_string(url).as_str()).concat(";")
}

/// Where the rule sends the URL, given that it decides.
pub open spec fn route_of(
    rule: LinkRoutingRule,
    url: Seq<char>,
    source: Seq<char>,
    surfaces: Seq<Seq<char>>,
) -> RouteView {
    if rule.target@ == "external"@ {
        RouteView::External
    } else if rule.target@ != source && !surfaces.contains(rule.target@) {
        RouteView::Queued { target: rule.target@ }
    } else {
        RouteView::Navigate {
            target: rule.target@,
            script: if surfaces.contains(rule.target@) {
                Some(navigation_script(url))
            } else {
                None
            },
            switch: rule.target@ != source,
        }
    }
}

/// Where the rules from position `i` on send the URL: the first rule that
/// decides decides, and with none the URL goes to the system browser.
pub open spec fn routed_from(
    rules: Seq<LinkRoutingRule>,
    apps: Seq<AppConfig>,
    url: Seq<char>,
    source: Seq<char>,
    surfaces: Seq<Seq<char>>,
    i: int,
) -> RouteView
    decreases rules.len() - i,
{
    if i < 0 || i >= rules.len() {
        RouteView::External
    } else if rule_decides(rules[i], apps, url) {
        route_of(rules[i], url, source, surfaces)
    } else {
        routed_from(rules, apps, url, source, surfaces, i + 1)
    }
}

/// Whether links with this scheme are routed.
pub fn is_web_scheme(scheme: &str) -> (b: bool)
    ensures
        b == (scheme@ == "http"@ || scheme@ == "https"@),
{
    scheme.eq("http") || scheme.eq("https")
}

/// Whether URLs with this scheme are handed to the system.
pub fn is_external_scheme(scheme: &str) -> (b: bool)
    ensures
        b == (scheme@ == "http"@ || scheme@ == "https"@ || scheme@ == "mailto"@),
{
    scheme.eq("http") || scheme.eq("https") || scheme.eq("mailto")
}

/// Checks a URL that is to be opened by the system: it has to read as a
/// URL with the scheme `http`, `https` or `mailto`.
pub fn open_in_external_browser(url: &str) -> (r: Result<(), LinkError>)
    ensures
        match r {
            Ok(_) => parsed_scheme(url@) is Some && (parsed_scheme(url@)->0 == "http"@
                || parsed_scheme(url@)->0 == "https"@ || parsed_scheme(url@)->0 == "mailto"@),
            Err(LinkError::InvalidUrl) => parsed_scheme(url@) is None,
            Err(LinkError::SchemeNotAllowed { scheme }) => parsed_scheme(url@) == Some(scheme@)
                && !(scheme@ == "http"@ || scheme@ == "https"@ || scheme@ == "mailto"@),
        },
{
    match url_scheme(url) {
        None => Err(LinkError::InvalidUrl),
        Some(scheme) => if is_external_scheme(scheme.as_str()) {
            Ok(())
        } else {
            Err(LinkError::SchemeNotAllowed { scheme })
        },
    }
}

/// Where the link rules send `url`: the target of the first rule whose
/// pattern matches, and `external` where none matches.
pub open spec fn first_target_from(rules: Seq<LinkRoutingRule>, url: Seq<char>, i: int) -> Seq<char>
    decreases rules.len() - i,
{
    if i < 0 || i >= rules.len() {
        "external"@
    } else if rule_matches(rules[i], url) {
        rules[i].target@
    } else {
        first_target_from(rules, url, i + 1)
    }
}

/// Tells where the link rules would send `url`.
#[verifier::loop_isolation(false)]
pub fn test_link_route(config: &OrblyConfig, url: &str) -> (target: String)
    ensures
        target@ == first_target_from(config.link_routing.rules@, url@, 0),
{
    let rules = &config.link_routing.rules;
    let mut i: usize = 0;
    while i < rules.len()
        invariant
            i <= rules.len(),
            first_target_from(rules@, url@, 0) == first_target_from(rules@, url@, i as int),
        decreases rules.len() - i,
    {
        if wildcard_match(rules[i].pattern.as_str(), url) {
            return rules[i].target.clone();
        }
        i += 1;
    }
    String::from_str("external")
}

/// Decides where a link that a page of `source_app_id` opened goes.
/// `surfaces` are the ids of the instances that have a surface.
///
/// A link to an instance without a surface is queued for that instance in
/// the registry, unless the instance is the one that opened the link.
///
/// Fails where `url` is no URL or its scheme is neither `http` nor `https`.
#[verifier::loop_isolation(false)]
pub fn route_link(
    config: &OrblyConfig,
    manager: &mut AppManager,
    url: &str,
    source_app_id: &str,
    surfaces: &Vec<String>,
) -> (r: Result<LinkRoute, LinkError>)
    requires
        old(manager).wf(),
    ensures
        final(manager).wf(),
        final(manager)@ == old(manager)@,
        final(manager).ids() == old(manager).ids(),
        match r {
            Ok(route) => {
                &&& parsed_scheme(url@) is Some
                &&& (parsed_scheme(url@)->0 == "http"@ || parsed_scheme(url@)->0 == "https"@)
                &&& route@ == routed_from(
                    config.link_routing.rules@,
                    config.apps@,
                    url@,
                    source_app_id@,
                    texts(surfaces@),
                    0,
                )
                &&& final(manager).pending() == match route {
                    LinkRoute::Queued { target } => old(manager).pending().insert(target@, url@),
                    _ => old(manager).pending(),
                }
            },
            Err(e) => final(manager).pending() == old(manager).pending() && match e {
                LinkError::InvalidUrl => parsed_scheme(url@) is None,
                LinkError::SchemeNotAllowed { scheme } => parsed_scheme(url@) == Some(scheme@)
                    && !(scheme@ == "http"@ || scheme@ == "https"@),
            },
        },
{
    match url_scheme(url) {
        None => {
            return Err(LinkError::InvalidUrl);
        },
        Some(scheme) => {
            if !is_web_scheme(scheme.as_str()) {
                return Err(LinkError::SchemeNotAllowed { scheme });
            }
        },
    }
    let rules = &config.link_routing.rules;
    let ghost whole = routed_from(
        rules@,
        config.apps@,
        url@,
        source_app_id@,
        texts(surfaces@),
        0,
    );
    let mut i: usize = 0;
    while i < rules.len()
        invariant
            i <= rules.len(),
            manager.wf(),
            manager@ == old(manager)@,
            manager.ids() == old(manager).ids(),
            manager.pending() == old(manager).pending(),
            rules == &config.link_routing.rules,
            whole == routed_from(
                rules@,
                config.apps@,
                url@,
                source_app_id@,
                texts(surfaces@),
                i as int,
            ),
        decreases rules.len() - i,
    {
        let rule = &rules[i];
        if wildcard_match(rule.pattern.as_str(), url) {
            if rule.target.as_str().eq("external") {
                return Ok(LinkRoute::External);
            }
            if lookup_app(config.apps.as_slice(), rule.target.as_str()).is_some() {
                let has_surface = contains_text(surfaces, rule.target.as_str());
                let other = !rule.target.as_str().eq(source_app_id);
                if other && !has_surface {
                    manager.set_pending_navigation(rule.target.as_str(), url.to_owned());
                    return Ok(LinkRoute::Queued { target: rule.target.clone() });
                }
                let script = if has_surface {
                    Some(navigate_script(url))
                } else {
                    None
                };
                return Ok(LinkRoute::Navigate { target: rule.target.clone(), script, switch: other });
            }
        }
        i += 1;
    }
    Ok(LinkRoute::External)
}

} // verus!
