use vstd::prelude::*;

use crate::string_map::StringMap;

verus! {

/// The journal as a map from instance id to last known URL.
pub type Journal = Map<Seq<char>, Seq<char>>;

/// The journal `m` after each pair of `entries`, in order, was written to it.
pub open spec fn journal_with(m: Journal, entries: Seq<(String, String)>) -> Journal
    decreases entries.len(),
{
    if entries.len() == 0 {
        m
    } else {
        journal_with(m, entries.drop_last()).insert(entries.last().0@, entries.last().1@)
    }
}

/// What the journal holds: for each live instance the URL it was last known to show.
pub struct SessionData {
    pub active_apps: StringMap<String>,
}

impl View for SessionData {
    type V = Journal;

    open spec fn view(&self) -> Journal {
        self.active_apps@.map_values(|s: String| s@)
    }
}

impl SessionData {
    pub open spec fn wf(&self) -> bool {
        self.active_apps.wf()
    }

    /// The journal that holds the given pairs of id and URL. Where an id
    /// comes twice the later pair counts.
    pub fn from_entries(entries: Vec<(String, String)>) -> (d: Self)
        ensures
            d.wf(),
            d@ == journal_with(Map::<Seq<char>, Seq<char>>::empty(), entries@),
    {
        let mut d = SessionData { active_apps: StringMap::new() };
        assert(d@ =~= Map::<Seq<char>, Seq<char>>::empty());
        let mut i: usize = 0;
        while i < entries.len()
            invariant
                i <= entries.len(),
                d.wf(),
                d@ == journal_with(Map::<Seq<char>, Seq<char>>::empty(), entries@.take(i as int)),
            decreases entries.len() - i,
        {
            let ghost before = d@;
            let id = entries[i].0.clone();
            let url = entries[i].1.clone();
            let _ = d.active_apps.insert(id, url);
            proof {
                assert(d@ =~= before.insert(entries@[i as int].0@, entries@[i as int].1@));
                assert(entries@.take(i + 1).drop_last() =~= entries@.take(i as int));
                assert(entries@.take(i + 1).last() == entries@[i as int]);
            }
            i += 1;
        }
        proof {
            assert(entries@.take(entries.len() as int) =~= entries@);
        }
        d
    }
}

impl Default for SessionData {
    fn default() -> (d: Self)
        ensures
            d.wf(),
            d@ == Map::<Seq<char>, Seq<char>>::empty(),
    {
        let d = SessionData { active_apps: StringMap::new() };
        assert(d@ =~= Map::<Seq<char>, Seq<char>>::empty());
        d
    }
}

/// The session journal: which instances were live and where, kept for the
/// recovery after an unclean shutdown. The caller stores it after each change.
pub struct SessionState {
    inner: SessionData,
}

impl View for SessionState {
    type V = Journal;

    closed spec fn view(&self) -> Journal {
        self.inner@
    }
}

impl SessionState {
    pub closed spec fn wf(&self) -> bool {
        self.inner.wf()
    }

    /// The ids in the order in which the journal lists them, each once.
    pub closed spec fn ids(&self) -> Seq<Seq<char>> {
        self.inner.active_apps.key_seq()
    }

    /// A journal that starts with what the previous session left.
    pub fn new(previous: SessionData) -> (s: Self)
        requires
            previous.wf(),
        ensures
            s.wf(),
            s@ == previous@,
    {
        SessionState { inner: previous }
    }

    /// Records that `app_id` is live at `url`.
    pub fn set_active(&mut self, app_id: &str, url: &str)
        requires
            old(self).wf(),
        ensures
            final(self).wf(),
            final(self)@ == old(self)@.insert(app_id@, url@),
    {
        let _ = self.inner.active_apps.insert(app_id.to_owned(), url.to_owned());
        assert(self@ =~= old(self)@.insert(app_id@, url@));
    }

    /// Records that `app_id` is no longer live.
    pub fn remove(&mut self, app_id: &str)
        requires
            old(self).wf(),
        ensures
            final(self).wf(),
            final(self)@ == old(self)@.remove(app_id@),
    {
        let _ = self.inner.active_apps.remove(app_id);
        assert(self@ =~= old(self)@.remove(app_id@));
    }

    /// The URL that the journal holds for `app_id`.
    pub fn url_of(&self, app_id: &str) -> (r: Option<&String>)
        requires
            self.wf(),
        ensures
            match r {
                Some(url) => self@.contains_key(app_id@) && url@ == self@[app_id@],
                None => !self@.contains_key(app_id@),
            },
    {
        self.inner.active_apps.get(app_id)
    }

    /// The number of journaled instances.
    pub fn len(&self) -> (n: usize)
        requires
            self.wf(),
        ensures
            n == self@.dom().len(),
            n == self.ids().len(),
    {
        assert(self@.dom() =~= self.inner.active_apps@.dom());
        self.inner.active_apps.len()
    }

    /// Whether the journal is empty, which tells a clean previous shutdown.
    pub fn is_empty(&self) -> (b: bool)
        requires
            self.wf(),
        ensures
            b == (self@ == Map::<Seq<char>, Seq<char>>::empty()),
    {
        let b = self.inner.active_apps.is_empty();
        proof {
            if b {
                assert(self@ =~= Map::<Seq<char>, Seq<char>>::empty());
            } else {
                assert(self.inner.active_apps@.dom() =~= self@.dom());
                if self@ == Map::<Seq<char>, Seq<char>>::empty() {
                    assert(self.inner.active_apps@ =~= Map::<Seq<char>, String>::empty());
                }
            }
        }
        b
    }

    /// What the journal holds, as pairs of id and URL: each journaled id once,
    /// with its URL.
    pub fn get_previous_session(&self) -> (r: Vec<(String, String)>)
        requires
            self.wf(),
        ensures
            r@.len() == self@.dom().len(),
            forall|i: int|
                0 <= i < r@.len() ==> (#[trigger] r@[i]).0@ == self.ids()[i] && self@.contains_key(
                    r@[i].0@,
                ) && r@[i].1@ == self@[r@[i].0@],
            self.ids().no_duplicates(),
            self.ids().to_set() == self@.dom(),
    {
        let n = self.inner.active_apps.len();
        proof {
            self.inner.active_apps.lemma_len();
            assert(self@.dom() =~= self.inner.active_apps@.dom());
        }
        let mut r: Vec<(String, String)> = Vec::new();
        let mut i: usize = 0;
        while i < n
            invariant
                i <= n,
                n == self.ids().len(),
                self.wf(),
                r@.len() == i,
                forall|j: int|
                    0 <= j < i ==> (#[trigger] r@[j]).0@ == self.ids()[j] && self@.contains_key(
                        r@[j].0@,
                    ) && r@[j].1@ == self@[r@[j].0@],
            decreases n - i,
        {
            proof {
                self.inner.active_apps.lemma_entry(i as int);
            }
            let id = self.inner.active_apps.key_at(i).clone();
            let url = self.inner.active_apps.value_at(i).clone();
            r.push((id, url));
            i += 1;
        }
        r
    }

    /// Empties the journal, once a recovery has replayed it.
    pub fn clear(&mut self)
        ensures
            final(self).wf(),
            final(self)@ == Map::<Seq<char>, Seq<char>>::empty(),
    {
        self.inner.active_apps.clear();
        assert(self@ =~= Map::<Seq<char>, Seq<char>>::empty());
    }
}

} // verus!
