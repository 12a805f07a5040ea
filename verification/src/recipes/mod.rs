use vstd::prelude::*;
use vstd::utf8::encode_utf8;

use crate::hashing::{hex_encode, hex_lower, sha256, sha256_digest};
use crate::string_map::StringMap;
use crate::text::{chars_of, find_chars, first_occurrence, opt_text};

verus! {

/// What a recipe brings for one service.
#[derive(Debug, PartialEq, Eq)]
pub struct ServiceRecipe {
    pub name: String,
    pub badge_script: Option<String>,
    pub injection_css: Option<String>,
    pub injection_js: Option<String>,
    pub recommended_user_agent: Option<String>,
    /// The SHA-256 digest of the three scripts, in hexadecimal.
    pub sha256: String,
}

fn clone_opt(s: &Option<String>) -> (r: Option<String>)
    ensures
        r == *s,
{
    match s {
        Some(t) => Some(t.clone()),
        None => None,
    }
}

impl Clone for ServiceRecipe {
    fn clone(&self) -> (r: Self)
        ensures
            r == *self,
    {
        ServiceRecipe {
            name: self.name.clone(),
            badge_script: clone_opt(&self.badge_script),
            injection_css: clone_opt(&self.injection_css),
            injection_js: clone_opt(&self.injection_js),
            recommended_user_agent: clone_opt(&self.recommended_user_agent),
            sha256: self.sha256.clone(),
        }
    }
}

/// The recipes of all services, as the recipe server publishes them.
pub struct RecipeManifest {
    pub version: u32,
    pub services: StringMap<ServiceRecipe>,
}

/// What the settings show of the recipes.
#[derive(Debug, PartialEq, Eq)]
pub struct RecipeStatus {
    /// `fetch-failed`, `up-to-date` or `no-data`.
    pub status: String,
    pub last_updated: String,
    pub manifest_version: Option<u32>,
    pub service_count: usize,
}

/// The bytes of an optional text; none where there is no text.
pub open spec fn opt_bytes(s: Option<String>) -> Seq<u8> {
    match s {
        Some(t) => encode_utf8(t@),
        None => Seq::<u8>::empty(),
    }
}

/// The bytes that the digest of a recipe is taken of: the badge script, the
/// style sheet and the script, with a zero byte between them.
pub open spec fn digest_input(r: ServiceRecipe) -> Seq<u8> {
    opt_bytes(r.badge_script) + seq![0u8] + opt_bytes(r.injection_css) + seq![0u8] + opt_bytes(
        r.injection_js,
    )
}

/// The digest of a recipe, in hexadecimal.
pub open spec fn recipe_hash_of(r: ServiceRecipe) -> Seq<char> {
    hex_lower(sha256_digest(digest_input(r)))
}

/// A character with an uppercase ASCII letter made lowercase.
pub open spec fn ascii_lower(c: char) -> int {
    if 'A' <= c <= 'Z' {
        c as int + 32
    } else {
        c as int
    }
}

/// Whether two texts are equal when the case of ASCII letters does not count.
pub open spec fn same_ignoring_ascii_case(a: Seq<char>, b: Seq<char>) -> bool {
    a.len() == b.len() && forall|i: int|
        0 <= i < a.len() ==> ascii_lower(#[trigger] a[i]) == ascii_lower(b[i])
}

/// Whether a service id can name a directory of its own: it holds neither
/// `..` nor a slash nor a backslash.
pub open spec fn safe_service_id(id: Seq<char>) -> bool {
    first_occurrence(id, ".."@, 0) is None && first_occurrence(id, "/"@, 0) is None
        && first_occurrence(id, "\\"@, 0) is None
}

/// Whether a recipe is taken: its id is safe and its digest is the one that it states.
pub open spec fn trusted(id: Seq<char>, r: ServiceRecipe) -> bool {
    safe_service_id(id) && same_ignoring_ascii_case(recipe_hash_of(r), r.sha256@)
}

/// The services of a manifest that are taken.
pub open spec fn trusted_services(m: Map<Seq<char>, ServiceRecipe>) -> Map<
    Seq<char>,
    ServiceRecipe,
> {
    Map::new(|k: Seq<char>| m.contains_key(k) && trusted(k, m[k]), |k: Seq<char>| m[k])
}

fn lower_code(c: char) -> (r: u32)
    ensures
        r == ascii_lower(c),
{
    if c >= 'A' && c <= 'Z' {
        c as u32 + 32
    } else {
        c as u32
    }
}

/// Whether two texts are equal when the case of ASCII letters does not count.
#[verifier::loop_isolation(false)]
pub fn eq_ignore_ascii_case(a: &str, b: &str) -> (r: bool)
    ensures
        r == same_ignoring_ascii_case(a@, b@),
{
    let x = chars_of(a);
    let y = chars_of(b);
    if x.len() != y.len() {
        return false;
    }
    let mut i: usize = 0;
    while i < x.len()
        invariant
            i <= x.len(),
            x@.len() == y@.len(),
            forall|j: int| 0 <= j < i ==> ascii_lower(#[trigger] x@[j]) == ascii_lower(y@[j]),
        decreases x.len() - i,
    {
        if lower_code(x[i]) != lower_code(y[i]) {
            assert(ascii_lower(a@[i as int]) != ascii_lower(b@[i as int]));
            return false;
        }
        i += 1;
    }
    true
}

fn holds(id: &[char], word: &str) -> (b: bool)
    ensures
        b == (first_occurrence(id@, word@, 0) is Some),
{
    let w = chars_of(word);
    find_chars(id, w.as_slice(), 0).is_some()
}

/// Whether a service id can name a directory of its own.
pub fn is_safe_service_id(service_id: &str) -> (r: bool)
    ensures
        r == safe_service_id(service_id@),
{
    let id = chars_of(service_id);
    !holds(id.as_slice(), "..") && !holds(id.as_slice(), "/") && !holds(id.as_slice(), "\\")
}

fn push_opt_bytes(out: &mut Vec<u8>, s: &Option<String>)
    ensures
        final(out)@ == old(out)@ + opt_bytes(*s),
{
    match s {
        Some(t) => {
            out.extend_from_slice(t.as_str().as_bytes());
        },
        None => {
            assert(out@ + Seq::<u8>::empty() =~= out@);
        },
    }
}

/// The digest of a recipe, in hexadecimal.
pub fn recipe_hash(recipe: &ServiceRecipe) -> (hash: String)
    ensures
        hash@ == recipe_hash_of(*recipe),
{
    let mut input: Vec<u8> = Vec::new();
    push_opt_bytes(&mut input, &recipe.badge_script);
    input.push(0);
    push_opt_bytes(&mut input, &recipe.injection_css);
    input.push(0);
    push_opt_bytes(&mut input, &recipe.injection_js);
    assert(input@ =~= digest_input(*recipe));
    let digest = sha256(input.as_slice());
    hex_encode(digest.as_slice())
}

/// Whether a recipe is taken: its id is safe and its digest is the one that it states.
pub fn verify_recipe(service_id: &str, recipe: &ServiceRecipe) -> (ok: bool)
    ensures
        ok == trusted(service_id@, *recipe),
{
    if !is_safe_service_id(service_id) {
        return false;
    }
    let hash = recipe_hash(recipe);
    eq_ignore_ascii_case(hash.as_str(), recipe.sha256.as_str())
}

/// The manifest with the services that are taken, and no other.
pub fn verified_manifest(manifest: &RecipeManifest) -> (verified: RecipeManifest)
    requires
        manifest.services.wf(),
    ensures
        verified.services.wf(),
        verified.version == manifest.version,
        verified.services@ == trusted_services(manifest.services@),
{
    let n = manifest.services.len();
    let ghost keys = manifest.services.key_seq();
    let mut services: StringMap<ServiceRecipe> = StringMap::new();
    let mut i: usize = 0;
    while i < n
        invariant
            i <= n,
            n == keys.len(),
            keys == manifest.services.key_seq(),
            manifest.services.wf(),
            services.wf(),
            forall|k: Seq<char>|
                services@.contains_key(k) <==> keys.take(i as int).contains(k) && trusted(
                    k,
                    manifest.services@[k],
                ),
            forall|k: Seq<char>|
                services@.contains_key(k) ==> #[trigger] services@[k] == manifest.services@[k],
        decreases n - i,
    {
        let id = manifest.services.key_at(i);
        let recipe = manifest.services.value_at(i);
        proof {
            manifest.services.lemma_entry(i as int);
            let done = keys.take(i as int);
            let next = keys.take(i + 1);
            assert(next =~= done.push(keys[i as int]));
            assert forall|k: Seq<char>| next.contains(k) <==> done.contains(k) || k
                == keys[i as int] by {
                if done.contains(k) {
                    let x = choose|x: int| 0 <= x < done.len() && done[x] == k;
                    assert(next[x] == k);
                }
                if k == keys[i as int] {
                    assert(next[i as int] == k);
                }
            }
        }
        if verify_recipe(id.as_str(), recipe) {
            let _ = services.insert(id.clone(), recipe.clone());
        }
        i += 1;
    }
    proof {
        assert(keys.take(n as int) =~= keys);
        manifest.services.lemma_len();
        assert forall|k: Seq<char>| keys.contains(k) <==> manifest.services@.contains_key(k) by {
            assert(keys.to_set().contains(k) <==> keys.contains(k));
        }
        assert(services@ =~= trusted_services(manifest.services@));
    }
    RecipeManifest { version: manifest.version, services }
}

/// The recipe that the files kept for a service make up, if there is a file.
pub fn recipe_from_files(
    service_id: &str,
    badge: Option<String>,
    css: Option<String>,
    js: Option<String>,
) -> (r: Option<ServiceRecipe>)
    ensures
        match r {
            Some(recipe) => (badge is Some || css is Some || js is Some) && recipe.name@
                == service_id@ && recipe.badge_script == badge && recipe.injection_css == css
                && recipe.injection_js == js && recipe.recommended_user_agent is None
                && recipe.sha256@.len() == 0,
            None => badge is None && css is None && js is None,
        },
{
    if badge.is_some() || css.is_some() || js.is_some() {
        Some(
            ServiceRecipe {
                name: service_id.to_owned(),
                badge_script: badge,
                injection_css: css,
                injection_js: js,
                recommended_user_agent: None,
                sha256: String::new(),
            },
        )
    } else {
        None
    }
}

/// The recipes that are held, when they were fetched, and what went wrong last.
pub struct RecipeManager {
    manifest: Option<RecipeManifest>,
    last_updated: Option<String>,
    last_error: Option<String>,
}

impl RecipeManager {
    pub closed spec fn wf(&self) -> bool {
        self.manifest is Some ==> self.manifest->0.services.wf()
    }

    /// The manifest that is held.
    pub closed spec fn manifest(&self) -> Option<RecipeManifest> {
        self.manifest
    }

    /// When the manifest was fetched, as a text.
    pub closed spec fn updated(&self) -> Option<Seq<char>> {
        opt_text(self.last_updated)
    }

    /// What went wrong with the last fetch.
    pub closed spec fn error(&self) -> Option<Seq<char>> {
        opt_text(self.last_error)
    }

    /// A manager that starts with the manifest that was kept, if one was,
    /// and the time at which it was written.
    pub fn new(cached: Option<RecipeManifest>, written: Option<String>) -> (m: Self)
        requires
            cached is Some ==> cached->0.services.wf(),
        ensures
            m.wf(),
            m.manifest() == cached,
            m.updated() == if cached is Some {
                opt_text(written)
            } else {
                None
            },
            m.error() is None,
    {
        let last_updated = if cached.is_some() {
            written
        } else {
            None
        };
        RecipeManager { manifest: cached, last_updated, last_error: None }
    }

    /// Takes the manifest that was fetched at time `now`: holds its trusted
    /// services, and forgets the last error.
    pub fn update(&mut self, fetched: &RecipeManifest, now: String)
        requires
            fetched.services.wf(),
        ensures
            final(self).wf(),
            final(self).manifest() is Some,
            final(self).manifest()->0.version == fetched.version,
            final(self).manifest()->0.services@ == trusted_services(fetched.services@),
            final(self).updated() == Some(now@),
            final(self).error() is None,
    {
        self.manifest = Some(verified_manifest(fetched));
        self.last_updated = Some(now);
        self.last_error = None;
    }

    /// The manifest that is held, for the caller to store.
    pub fn held_manifest(&self) -> (m: Option<&RecipeManifest>)
        ensures
            match m {
                Some(held) => self.manifest() == Some(*held),
                None => self.manifest() is None,
            },
    {
        match &self.manifest {
            Some(m) => Some(m),
            None => None,
        }
    }

    /// The recipe that the manifest holds for a service.
    pub fn get_recipe(&self, service_id: &str) -> (r: Option<ServiceRecipe>)
        requires
            self.wf(),
        ensures
            r == match self.manifest() {
                Some(m) => if m.services@.contains_key(service_id@) {
                    Some(m.services@[service_id@])
                } else {
                    None
                },
                None => None,
            },
    {
        match &self.manifest {
            Some(m) => match m.services.get(service_id) {
                Some(recipe) => Some(recipe.clone()),
                None => None,
            },
            None => None,
        }
    }

    /// What the settings show of the recipes: `fetch-failed` after a fetch
    /// that went wrong, else `up-to-date` with a manifest and `no-data` without.
    pub fn get_status(&self) -> (s: RecipeStatus)
        requires
            self.wf(),
        ensures
            s.status@ == if self.error() is Some {
                "fetch-failed"@
            } else if self.manifest() is Some {
                "up-to-date"@
            } else {
                "no-data"@
            },
            s.last_updated@ == match self.updated() {
                Some(t) => t,
                None => Seq::<char>::empty(),
            },
            s.manifest_version == match self.manifest() {
                Some(m) => Some(m.version),
                None => None,
            },
            s.service_count == match self.manifest() {
                Some(m) => m.services@.dom().len(),
                None => 0,
            },
    {
        let status = if self.last_error.is_some() {
            String::from_str("fetch-failed")
        } else if self.manifest.is_some() {
            String::from_str("up-to-date")
        } else {
            String::from_str("no-data")
        };
        let last_updated = match &self.last_updated {
            Some(t) => t.clone(),
            None => String::new(),
        };
        let (manifest_version, service_count) = match &self.manifest {
            Some(m) => (Some(m.version), m.services.len()),
            None => (None, 0),
        };
        RecipeStatus { status, last_updated, manifest_version, service_count }
    }

    /// Records that a fetch went wrong.
    pub fn set_error(&mut self, error: String)
        ensures
            final(self).manifest() == old(self).manifest(),
            final(self).updated() == old(self).updated(),
            final(self).error() == Some(error@),
            old(self).wf() ==> final(self).wf(),
    {
        self.last_error = Some(error);
    }
}

} // verus!
