use vstd::prelude::*;

verus! {

/// How far a download has come. How much of a running download has
/// arrived is the caller's to keep.
#[derive(Debug, PartialEq, Eq)]
pub enum DownloadStatus {
    Downloading,
    Complete,
    Failed { error: String },
    Cancelled,
}

impl Clone for DownloadStatus {
    fn clone(&self) -> (r: Self)
        ensures
            r == *self,
    {
        match self {
            DownloadStatus::Downloading => DownloadStatus::Downloading,
            DownloadStatus::Complete => DownloadStatus::Complete,
            DownloadStatus::Failed { error } => DownloadStatus::Failed { error: error.clone() },
            DownloadStatus::Cancelled => DownloadStatus::Cancelled,
        }
    }
}

/// One download.
#[derive(Debug, PartialEq, Eq)]
pub struct DownloadEntry {
    pub id: String,
    pub filename: String,
    pub source_app_id: String,
    pub source_app_name: String,
    pub url: String,
    pub save_path: String,
    pub size_bytes: Option<u64>,
    pub status: DownloadStatus,
    pub created_at: String,
}

impl Clone for DownloadEntry {
    fn clone(&self) -> (r: Self)
        ensures
            r == *self,
    {
        DownloadEntry {
            id: self.id.clone(),
            filename: self.filename.clone(),
            source_app_id: self.source_app_id.clone(),
            source_app_name: self.source_app_name.clone(),
            url: self.url.clone(),
            save_path: self.save_path.clone(),
            size_bytes: self.size_bytes,
            status: self.status.clone(),
            created_at: self.created_at.clone(),
        }
    }
}

/// Whether `i` is the position of the first download with the id `id`.
pub open spec fn is_first_download(entries: Seq<DownloadEntry>, id: Seq<char>, i: int) -> bool {
    &&& 0 <= i < entries.len()
    &&& entries[i].id@ == id
    &&& forall|j: int| 0 <= j < i ==> (#[trigger] entries[j]).id@ != id
}

/// The downloads with the status of the first download of the id `id`
/// set to `status`; unchanged where no download has the id.
pub open spec fn with_status(entries: Seq<DownloadEntry>, id: Seq<char>, status: DownloadStatus) -> Seq<
    DownloadEntry,
> {
    if exists|i: int| is_first_download(entries, id, i) {
        let i = choose|i: int| is_first_download(entries, id, i);
        entries.update(i, DownloadEntry { status, ..entries[i] })
    } else {
        entries
    }
}

/// How many of the downloads are under way.
pub open spec fn active_count(entries: Seq<DownloadEntry>) -> nat
    decreases entries.len(),
{
    if entries.len() == 0 {
        0
    } else if entries.last().status is Downloading {
        active_count(entries.drop_last()) + 1
    } else {
        active_count(entries.drop_last())
    }
}

/// The downloads that are not complete, in order.
pub open spec fn without_completed(entries: Seq<DownloadEntry>) -> Seq<DownloadEntry>
    decreases entries.len(),
{
    if entries.len() == 0 {
        Seq::empty()
    } else if entries.last().status is Complete {
        without_completed(entries.drop_last())
    } else {
        without_completed(entries.drop_last()).push(entries.last())
    }
}

/// The downloads whose id is not `id`, in order.
pub open spec fn without_download(entries: Seq<DownloadEntry>, id: Seq<char>) -> Seq<DownloadEntry>
    decreases entries.len(),
{
    if entries.len() == 0 {
        Seq::empty()
    } else if entries.last().id@ == id {
        without_download(entries.drop_last(), id)
    } else {
        without_download(entries.drop_last(), id).push(entries.last())
    }
}

/// Whether `i` is the position of the first download of `url` that is under way.
pub open spec fn is_first_running(entries: Seq<DownloadEntry>, url: Seq<char>, i: int) -> bool {
    &&& 0 <= i < entries.len()
    &&& entries[i].url@ == url
    &&& entries[i].status is Downloading
    &&& forall|j: int|
        0 <= j < i ==> !((#[trigger] entries[j]).url@ == url && entries[j].status is Downloading)
}

proof fn lemma_count_bounded(entries: Seq<DownloadEntry>)
    ensures
        active_count(entries) <= entries.len(),
    decreases entries.len(),
{
    if entries.len() > 0 {
        lemma_count_bounded(entries.drop_last());
    }
}

/// The list of downloads, in the order in which they began.
pub struct DownloadManager {
    downloads: Vec<DownloadEntry>,
}

impl DownloadManager {
    /// The downloads, in order.
    pub closed spec fn entries(&self) -> Seq<DownloadEntry> {
        self.downloads@
    }

    pub fn new() -> (m: Self)
        ensures
            m.entries().len() == 0,
    {
        DownloadManager { downloads: Vec::new() }
    }

    /// Adds a download at the end and returns its id.
    pub fn add_download(&mut self, entry: DownloadEntry) -> (id: String)
        ensures
            id@ == entry.id@,
            final(self).entries() == old(self).entries().push(entry),
    {
        let id = entry.id.clone();
        self.downloads.push(entry);
        id
    }

    fn find(&self, id: &str) -> (r: Option<usize>)
        ensures
            match r {
                Some(i) => is_first_download(self.entries(), id@, i as int),
                None => forall|i: int| !is_first_download(self.entries(), id@, i),
            },
    {
        let mut i: usize = 0;
        while i < self.downloads.len()
            invariant
                i <= self.downloads.len(),
                forall|j: int| 0 <= j < i ==> (#[trigger] self.downloads@[j]).id@ != id@,
            decreases self.downloads.len() - i,
        {
            if self.downloads[i].id.as_str().eq(id) {
                return Some(i);
            }
            i += 1;
        }
        None
    }

    fn set_status(&mut self, id: &str, status: DownloadStatus)
        ensures
            final(self).entries() == with_status(old(self).entries(), id@, status),
    {
        match self.find(id) {
            Some(i) => {
                proof {
                    let c = choose|c: int| is_first_download(self.entries(), id@, c);
                    if c < i {
                        assert(self.entries()[c].id@ != id@);
                    }
                    if i < c {
                        assert(self.entries()[i as int].id@ != id@);
                    }
                }
                self.downloads[i].status = status;
            },
            None => {},
        }
    }

    /// Records that the download `id` is under way again.
    pub fn update_progress(&mut self, id: &str)
        ensures
            final(self).entries() == with_status(
                old(self).entries(),
                id@,
                DownloadStatus::Downloading,
            ),
    {
        self.set_status(id, DownloadStatus::Downloading);
    }

    pub fn complete_download(&mut self, id: &str)
        ensures
            final(self).entries() == with_status(old(self).entries(), id@, DownloadStatus::Complete),
    {
        self.set_status(id, DownloadStatus::Complete);
    }

    pub fn fail_download(&mut self, id: &str, error: String)
        ensures
            final(self).entries() == with_status(
                old(self).entries(),
                id@,
                DownloadStatus::Failed { error },
            ),
    {
        self.set_status(id, DownloadStatus::Failed { error });
    }

    pub fn cancel_download(&mut self, id: &str)
        ensures
            final(self).entries() == with_status(
                old(self).entries(),
                id@,
                DownloadStatus::Cancelled,
            ),
    {
        self.set_status(id, DownloadStatus::Cancelled);
    }

    /// A copy of the downloads, in order.
    pub fn get_all(&self) -> (all: Vec<DownloadEntry>)
        ensures
            all@ == self.entries(),
    {
        let mut all: Vec<DownloadEntry> = Vec::new();
        let mut i: usize = 0;
        while i < self.downloads.len()
            invariant
                i <= self.downloads.len(),
                all@ == self.downloads@.take(i as int),
            decreases self.downloads.len() - i,
        {
            all.push(self.downloads[i].clone());
            i += 1;
        }
        all
    }

    /// How many downloads are under way.
    pub fn get_active_count(&self) -> (n: usize)
        ensures
            n == active_count(self.entries()),
    {
        let mut n: usize = 0;
        let mut i: usize = 0;
        while i < self.downloads.len()
            invariant
                i <= self.downloads.len(),
                n == active_count(self.downloads@.take(i as int)),
                n <= i,
            decreases self.downloads.len() - i,
        {
            proof {
                assert(self.downloads@.take(i + 1).drop_last() =~= self.downloads@.take(i as int));
                assert(self.downloads@.take(i + 1).last() == self.downloads@[i as int]);
                lemma_count_bounded(self.downloads@.take(i as int));
            }
            let running = match &self.downloads[i].status {
                DownloadStatus::Downloading => true,
                _ => false,
            };
            if running {
                n += 1;
            }
            i += 1;
        }
        proof {
            assert(self.downloads@.take(self.downloads.len() as int) =~= self.downloads@);
        }
        n
    }

    /// Drops the downloads that are complete.
    pub fn clear_completed(&mut self)
        ensures
            final(self).entries() == without_completed(old(self).entries()),
    {
        let ghost all = self.downloads@;
        let ghost mut done: int = 0;
        let mut i: usize = 0;
        proof {
            assert(self.downloads@ =~= without_completed(all.take(0)) + all.skip(0));
        }
        while i < self.downloads.len()
            invariant
                all == old(self).entries(),
                0 <= done <= all.len(),
                i <= self.downloads@.len(),
                i == without_completed(all.take(done)).len(),
                self.downloads@ == without_completed(all.take(done)) + all.skip(done),
            decreases all.len() - done,
        {
            proof {
                assert(self.downloads@[i as int] == all.skip(done)[0]);
                assert(all.take(done + 1).drop_last() =~= all.take(done));
                assert(all.take(done + 1).last() == all[done]);
            }
            let complete = match &self.downloads[i].status {
                DownloadStatus::Complete => true,
                _ => false,
            };
            if complete {
                let _ = self.downloads.remove(i);
            } else {
                i += 1;
            }
            proof {
                assert(self.downloads@ =~= without_completed(all.take(done + 1)) + all.skip(
                    done + 1,
                ));
                done = done + 1;
            }
        }
        proof {
            assert(done == all.len()) by {
                if done < all.len() {
                    assert(self.downloads@.len() == i + all.skip(done).len());
                }
            }
            assert(all.take(done) =~= all);
            assert(self.downloads@ =~= without_completed(all));
        }
    }

    /// Drops the downloads with the id `id`.
    pub fn remove(&mut self, id: &str)
        ensures
            final(self).entries() == without_download(old(self).entries(), id@),
    {
        let ghost all = self.downloads@;
        let ghost mut done: int = 0;
        let mut i: usize = 0;
        proof {
            assert(self.downloads@ =~= without_download(all.take(0), id@) + all.skip(0));
        }
        while i < self.downloads.len()
            invariant
                all == old(self).entries(),
                0 <= done <= all.len(),
                i <= self.downloads@.len(),
                i == without_download(all.take(done), id@).len(),
                self.downloads@ == without_download(all.take(done), id@) + all.skip(done),
            decreases all.len() - done,
        {
            proof {
                assert(self.downloads@[i as int] == all.skip(done)[0]);
                assert(all.take(done + 1).drop_last() =~= all.take(done));
                assert(all.take(done + 1).last() == all[done]);
            }
            if self.downloads[i].id.as_str().eq(id) {
                let _ = self.downloads.remove(i);
            } else {
                i += 1;
            }
            proof {
                assert(self.downloads@ =~= without_download(all.take(done + 1), id@) + all.skip(
                    done + 1,
                ));
                done = done + 1;
            }
        }
        proof {
            assert(done == all.len()) by {
                if done < all.len() {
                    assert(self.downloads@.len() == i + all.skip(done).len());
                }
            }
            assert(all.take(done) =~= all);
            assert(self.downloads@ =~= without_download(all, id@));
        }
    }

    /// The id of the first download of `url` that is under way, to find
    /// the download again when it ends.
    pub fn find_by_url(&self, url: &str) -> (r: Option<String>)
        ensures
            match r {
                Some(id) => exists|i: int|
                    is_first_running(self.entries(), url@, i) && id@ == self.entries()[i].id@,
                None => forall|i: int| !is_first_running(self.entries(), url@, i),
            },
    {
        let mut i: usize = 0;
        while i < self.downloads.len()
            invariant
                i <= self.downloads.len(),
                forall|j: int|
                    0 <= j < i ==> !((#[trigger] self.downloads@[j]).url@ == url@
                        && self.downloads@[j].status is Downloading),
            decreases self.downloads.len() - i,
        {
            let running = match &self.downloads[i].status {
                DownloadStatus::Downloading => true,
                _ => false,
            };
            if running && self.downloads[i].url.as_str().eq(url) {
                assert(is_first_running(self.entries(), url@, i as int));
                return Some(self.downloads[i].id.clone());
            }
            i += 1;
        }
        None
    }
}

} // verus!
