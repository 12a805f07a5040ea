use vstd::prelude::*;

use crate::string_map::StringMap;
use crate::text::{clone_strings, opt_text, texts};

verus! {

/// What the filter engine, built from a filter list and custom rules, says
/// of a request for `url` of type `request_type` that `source_url` started:
/// `Some(true)` to block it, `None` where `url` cannot be read as a URL.
pub uninterp spec fn engine_verdict(
    rules: Seq<char>,
    custom_rules: Seq<Seq<char>>,
    url: Seq<char>,
    source_url: Seq<char>,
    request_type: Seq<char>,
) -> Option<bool>;

/// The CSS selectors that the filter engine, built from a filter list and
/// custom rules, hides on the page at `url`.
pub uninterp spec fn engine_hide_selectors(
    rules: Seq<char>,
    custom_rules: Seq<Seq<char>>,
    url: Seq<char>,
) -> Set<Seq<char>>;

/// `adblock::Engine::check_network_request` on an engine made from the list
/// `rules` and the rules `custom_rules`, for the request that
/// `adblock::request::Request::new` makes of the three texts. Returns the
/// `matched` flag of the answer, or `None` where no request can be made.
#[verifier::external_body]
fn network_verdict(
    rules: &str,
    custom_rules: &Vec<String>,
    url: &str,
    source_url: &str,
    request_type: &str,
) -> (verdict: Option<bool>)
    ensures
        verdict == engine_verdict(rules@, texts(custom_rules@), url@, source_url@, request_type@),
{
    let mut filter_set = ::adblock::lists::FilterSet::new(false);
    filter_set.add_filter_list(rules, Default::default());
    filter_set.add_filters(custom_rules, Default::default());
    let engine = ::adblock::Engine::from_filter_set(filter_set, true);
    match ::adblock::request::Request::new(url, source_url, request_type) {
        Ok(request) => Some(engine.check_network_request(&request).matched),
        Err(_) => None,
    }
}

/// `adblock::Engine::url_cosmetic_resources` on an engine made from the list
/// `rules` and the rules `custom_rules`. Returns the `hide_selectors` of the
/// answer, a set, each once and in no particular order.
#[verifier::external_body]
fn url_hide_selectors(rules: &str, custom_rules: &Vec<String>, url: &str) -> (selectors: Vec<
    String,
>)
    ensures
        texts(selectors@).no_duplicates(),
        texts(selectors@).to_set() == engine_hide_selectors(rules@, texts(custom_rules@), url@),
{
    let mut filter_set = ::adblock::lists::FilterSet::new(false);
    filter_set.add_filter_list(rules, Default::default());
    filter_set.add_filters(custom_rules, Default::default());
    let engine = ::adblock::Engine::from_filter_set(filter_set, true);
    engine.url_cosmetic_resources(url).hide_selectors.into_iter().collect()
}

/// `adblock::lists::FilterSet::into_content_blocking` on the list `rules`
/// and the rules `custom_rules`, written as JSON by `serde_json::to_string`.
/// `None` where either fails. The order inside the JSON text is not fixed.
#[verifier::external_body]
fn content_blocking_rules(rules: &str, custom_rules: &Vec<String>) -> (json: Option<String>) {
    let mut filter_set = ::adblock::lists::FilterSet::new(true);
    filter_set.add_filter_list(rules, Default::default());
    filter_set.add_filters(custom_rules, Default::default());
    let (cb_rules, _) = filter_set.into_content_blocking().ok()?;
    ::serde_json::to_string(&cb_rules).ok()
}

/// The CSS rule that hides what `selector` selects.
pub open spec fn hide_rule(selector: Seq<char>) -> Seq<char> {
    selector + " { display: none !important; }"@
}

/// The CSS rules that hide what each of `selectors` selects, in their order.
pub open spec fn hide_rule_list(selectors: Seq<Seq<char>>) -> Seq<Seq<char>> {
    selectors.map_values(|s: Seq<char>| hide_rule(s))
}

/// Whether `rules` are the hiding rules of the selectors `selectors`, one
/// for each selector, in some order.
pub open spec fn hides_exactly(rules: Seq<Seq<char>>, selectors: Set<Seq<char>>) -> bool {
    exists|order: Seq<Seq<char>>|
        #![auto]
        order.no_duplicates() && order.to_set() == selectors && rules == hide_rule_list(order)
}

/// The CSS rules that hide what the given selectors select, in their order.
pub fn hide_rules(selectors: &Vec<String>) -> (rules: Vec<String>)
    ensures
        texts(rules@) == hide_rule_list(texts(selectors@)),
{
    let mut rules: Vec<String> = Vec::new();
    let mut i: usize = 0;
    while i < selectors.len()
        invariant
            i <= selectors.len(),
            rules@.len() == i,
            forall|j: int| 0 <= j < i ==> (#[trigger] rules@[j])@ == hide_rule(selectors@[j]@),
        decreases selectors.len() - i,
    {
        let mut rule = selectors[i].clone();
        rule.append(" { display: none !important; }");
        rules.push(rule);
        i += 1;
    }
    assert(texts(rules@) =~= hide_rule_list(texts(selectors@)));
    rules
}

/// The state of the ad blocker: the loaded rules, what was computed from
/// them, and how many requests were blocked for each instance.
pub struct AdblockState {
    cosmetic_cache: StringMap<Vec<String>>,
    blocked_counts: StringMap<u32>,
    filter_rules_text: Option<String>,
    custom_rules: Vec<String>,
    content_blocking_json: Option<String>,
}

impl AdblockState {
    pub closed spec fn wf(&self) -> bool {
        self.cosmetic_cache.wf() && self.blocked_counts.wf()
    }

    /// The filter list that is loaded, if one is.
    pub closed spec fn rules(&self) -> Option<Seq<char>> {
        opt_text(self.filter_rules_text)
    }

    /// The custom rules that are loaded.
    pub closed spec fn custom(&self) -> Seq<Seq<char>> {
        texts(self.custom_rules@)
    }

    /// The hiding rules computed so far, by page URL.
    pub closed spec fn cache(&self) -> Map<Seq<char>, Seq<Seq<char>>> {
        self.cosmetic_cache@.map_values(|v: Vec<String>| texts(v@))
    }

    /// The number of blocked requests, by instance id.
    pub closed spec fn counts(&self) -> Map<Seq<char>, u32> {
        self.blocked_counts@
    }

    /// The content-blocking rules computed last, as JSON.
    pub closed spec fn content_blocking(&self) -> Option<Seq<char>> {
        opt_text(self.content_blocking_json)
    }

    pub fn new() -> (s: Self)
        ensures
            s.wf(),
            s.rules() is None,
            s.custom().len() == 0,
            s.cache() == Map::<Seq<char>, Seq<Seq<char>>>::empty(),
            s.counts() == Map::<Seq<char>, u32>::empty(),
            s.content_blocking() is None,
    {
        let s = AdblockState {
            cosmetic_cache: StringMap::new(),
            blocked_counts: StringMap::new(),
            filter_rules_text: None,
            custom_rules: Vec::new(),
            content_blocking_json: None,
        };
        assert(s.cache() =~= Map::<Seq<char>, Seq<Seq<char>>>::empty());
        s
    }

    /// Loads a filter list and custom rules in place of what was loaded, and
    /// forgets the hiding rules computed from the old ones.
    pub fn load_rules(&mut self, rules_text: &str, custom_rules: &[String])
        requires
            old(self).wf(),
        ensures
            final(self).wf(),
            final(self).rules() == Some(rules_text@),
            final(self).custom() == texts(custom_rules@),
            final(self).cache() == Map::<Seq<char>, Seq<Seq<char>>>::empty(),
            final(self).counts() == old(self).counts(),
            final(self).content_blocking() == old(self).content_blocking(),
    {
        self.filter_rules_text = Some(rules_text.to_owned());
        let mut custom: Vec<String> = Vec::new();
        let mut i: usize = 0;
        while i < custom_rules.len()
            invariant
                i <= custom_rules.len(),
                custom@ == custom_rules@.take(i as int),
            decreases custom_rules.len() - i,
        {
            custom.push(custom_rules[i].clone());
            i += 1;
        }
        assert(custom_rules@.take(custom_rules.len() as int) =~= custom_rules@);
        self.custom_rules = custom;
        self.cosmetic_cache.clear();
        assert(self.cache() =~= Map::<Seq<char>, Seq<Seq<char>>>::empty());
    }

    /// Computes the content-blocking rules of what is loaded and keeps them
    /// as JSON. Where nothing is loaded or the rules cannot be converted, what
    /// was kept before stays. Returns whether new rules were kept.
    pub fn refresh_content_blocking_json(&mut self) -> (kept: bool)
        requires
            old(self).wf(),
        ensures
            final(self).wf(),
            final(self).rules() == old(self).rules(),
            final(self).custom() == old(self).custom(),
            final(self).cache() == old(self).cache(),
            final(self).counts() == old(self).counts(),
            !kept ==> final(self).content_blocking() == old(self).content_blocking(),
            kept ==> final(self).content_blocking() is Some && old(self).rules() is Some,
    {
        let json = match &self.filter_rules_text {
            Some(rules) => content_blocking_rules(rules.as_str(), &self.custom_rules),
            None => None,
        };
        self.keep_content_blocking_json(json)
    }

    /// Takes what the conversion of the loaded rules gave: JSON that came
    /// out is kept in place of what was kept before, and a conversion that
    /// gave nothing leaves that alone. Returns whether `json` was kept.
    pub fn keep_content_blocking_json(&mut self, json: Option<String>) -> (kept: bool)
        requires
            old(self).wf(),
        ensures
            final(self).wf(),
            final(self).rules() == old(self).rules(),
            final(self).custom() == old(self).custom(),
            final(self).cache() == old(self).cache(),
            final(self).counts() == old(self).counts(),
            kept == json is Some,
            final(self).content_blocking() == match json {
                Some(j) => Some(j@),
                None => old(self).content_blocking(),
            },
    {
        match json {
            Some(json) => {
                self.content_blocking_json = Some(json);
                true
            },
            None => false,
        }
    }

    /// The CSS rules that hide the ads on the page at `url`. They are
    /// computed once for each URL and then kept until new rules are loaded.
    /// With nothing loaded there are none, and nothing is kept.
    pub fn get_cosmetic_filters(&mut self, url: &str) -> (css_rules: Vec<String>)
        requires
            old(self).wf(),
        ensures
            final(self).wf(),
            final(self).rules() == old(self).rules(),
            final(self).custom() == old(self).custom(),
            final(self).counts() == old(self).counts(),
            final(self).content_blocking() == old(self).content_blocking(),
            old(self).cache().contains_key(url@) ==> texts(css_rules@) == old(self).cache()[url@]
                && final(self).cache() == old(self).cache(),
            !old(self).cache().contains_key(url@) && old(self).rules() is None ==> css_rules@.len()
                == 0 && final(self).cache() == old(self).cache(),
            !old(self).cache().contains_key(url@) && old(self).rules() is Some ==> hides_exactly(
                texts(css_rules@),
                engine_hide_selectors(old(self).rules()->0, old(self).custom(), url@),
            ) && final(self).cache() == old(self).cache().insert(url@, texts(css_rules@)),
    {
        match self.cosmetic_cache.get(url) {
            Some(cached) => {
                return clone_strings(cached);
            },
            None => {},
        }
        let selectors = match &self.filter_rules_text {
            Some(rules) => url_hide_selectors(rules.as_str(), &self.custom_rules, url),
            None => {
                return Vec::new();
            },
        };
        let css_rules = hide_rules(&selectors);
        let kept = clone_strings(&css_rules);
        let _ = self.cosmetic_cache.insert(url.to_owned(), kept);
        proof {
            assert(self.cache() =~= old(self).cache().insert(url@, texts(css_rules@)));
            assert(texts(selectors@).to_set() == engine_hide_selectors(
                old(self).rules()->0,
                old(self).custom(),
                url@,
            ));
        }
        css_rules
    }

    /// Whether the request for `url` of type `request_type`, started by the
    /// page at `source_url`, is blocked. Nothing is blocked while no rules
    /// are loaded, nor where `url` cannot be read as a URL.
    pub fn should_block(&self, url: &str, source_url: &str, request_type: &str) -> (block: bool)
        ensures
            block == (self.rules() is Some && engine_verdict(
                self.rules()->0,
                self.custom(),
                url@,
                source_url@,
                request_type@,
            ) == Some(true)),
    {
        match &self.filter_rules_text {
            Some(rules) => Self::is_blocked(
                network_verdict(rules.as_str(), &self.custom_rules, url, source_url, request_type),
            ),
            None => false,
        }
    }

    /// Whether the engine's answer blocks the request.
    pub fn is_blocked(verdict: Option<bool>) -> (block: bool)
        ensures
            block == (verdict == Some(true)),
    {
        match verdict {
            Some(matched) => matched,
            None => false,
        }
    }

    /// The content-blocking rules computed last, as JSON.
    pub fn get_content_blocking_json(&self) -> (json: Option<String>)
        ensures
            opt_text(json) == self.content_blocking(),
    {
        match &self.content_blocking_json {
            Some(j) => Some(j.clone()),
            None => None,
        }
    }

    /// Counts one more blocked request for `app_id`. The count stops at the
    /// largest number it can hold.
    pub fn increment_blocked(&mut self, app_id: &str)
        requires
            old(self).wf(),
        ensures
            final(self).wf(),
            final(self).rules() == old(self).rules(),
            final(self).custom() == old(self).custom(),
            final(self).cache() == old(self).cache(),
            final(self).content_blocking() == old(self).content_blocking(),
            final(self).counts() == old(self).counts().insert(
                app_id@,
                if !old(self).counts().contains_key(app_id@) {
                    1u32
                } else if old(self).counts()[app_id@] == u32::MAX {
                    u32::MAX
                } else {
                    (old(self).counts()[app_id@] + 1) as u32
                },
            ),
    {
        let count = match self.blocked_counts.get(app_id) {
            Some(c) => if *c == u32::MAX {
                u32::MAX
            } else {
                *c + 1
            },
            None => 1,
        };
        let _ = self.blocked_counts.insert(app_id.to_owned(), count);
    }

    /// The number of requests blocked for `app_id`.
    pub fn get_blocked_count(&self, app_id: &str) -> (count: u32)
        requires
            self.wf(),
        ensures
            count == if self.counts().contains_key(app_id@) {
                self.counts()[app_id@]
            } else {
                0
            },
    {
        match self.blocked_counts.get(app_id) {
            Some(c) => *c,
            None => 0,
        }
    }

    /// Starts the count of `app_id` afresh.
    pub fn reset_blocked_count(&mut self, app_id: &str)
        requires
            old(self).wf(),
        ensures
            final(self).wf(),
            final(self).rules() == old(self).rules(),
            final(self).custom() == old(self).custom(),
            final(self).cache() == old(self).cache(),
            final(self).content_blocking() == old(self).content_blocking(),
            final(self).counts() == old(self).counts().remove(app_id@),
    {
        let _ = self.blocked_counts.remove(app_id);
    }

    /// The filter list that is loaded, for loading it again with other custom rules.
    pub fn get_filter_rules_text(&self) -> (text: Option<String>)
        ensures
            opt_text(text) == self.rules(),
    {
        match &self.filter_rules_text {
            Some(t) => Some(t.clone()),
            None => None,
        }
    }
}

} // verus!
