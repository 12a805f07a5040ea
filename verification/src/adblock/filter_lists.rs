use vstd::prelude::*;

use crate::hashing::{sha256_hex, sha256_hex_of};
use crate::text::{chars_of, string_of, texts};

verus! {

/// A cached filter list older than this many seconds is fetched again.
pub const CACHE_MAX_AGE_SECS: u64 = 86400;

/// Keeps the filter lists that were downloaded, one cache file for each list.
pub struct FilterListManager {
    cache_dir: String,
}

/// What was found for one filter list: what a download returned, if one was
/// tried and succeeded, and what the cache file holds, if it could be read.
#[derive(Debug)]
pub struct ListFetch {
    pub downloaded: Option<String>,
    pub cached: Option<String>,
}

/// The text that a list contributes: the download where there is one, else the cache.
pub open spec fn list_text(f: ListFetch) -> Option<Seq<char>> {
    match f.downloaded {
        Some(d) => Some(d@),
        None => match f.cached {
            Some(c) => Some(c@),
            None => None,
        },
    }
}

/// The rules of all lists: the text of each list that has one, each followed
/// by a line break.
pub open spec fn combined_rules(fetched: Seq<ListFetch>) -> Seq<char>
    decreases fetched.len(),
{
    if fetched.len() == 0 {
        Seq::empty()
    } else {
        match list_text(fetched.last()) {
            Some(t) => combined_rules(fetched.drop_last()) + t + seq!['\n'],
            None => combined_rules(fetched.drop_last()),
        }
    }
}

/// The name of the cache file of a list: the first 16 hexadecimal digits of
/// the SHA-256 digest of its URL, with the extension `txt`.
pub open spec fn cache_file_name_of(url: Seq<char>) -> Seq<char> {
    sha256_hex_of(url).take(16) + ".txt"@
}

impl FilterListManager {
    /// The directory that holds the cache files.
    pub closed spec fn dir(&self) -> Seq<char> {
        self.cache_dir@
    }

    /// A manager whose cache files lie in `cache_dir`.
    pub fn new(cache_dir: String) -> (m: Self)
        ensures
            m.dir() == cache_dir@,
    {
        FilterListManager { cache_dir }
    }

    /// The directory that holds the cache files.
    pub fn cache_dir(&self) -> (dir: &str)
        ensures
            dir@ == self.dir(),
    {
        self.cache_dir.as_str()
    }

    /// The lists that are used where none is configured.
    pub fn default_list_urls() -> (urls: Vec<String>)
        ensures
            texts(urls@) == seq![
                "https://easylist.to/easylist/easylist.txt"@,
                "https://easylist.to/easylist/easyprivacy.txt"@,
            ],
    {
        let mut urls: Vec<String> = Vec::new();
        urls.push(String::from_str("https://easylist.to/easylist/easylist.txt"));
        urls.push(String::from_str("https://easylist.to/easylist/easyprivacy.txt"));
        assert(texts(urls@) =~= seq![
            "https://easylist.to/easylist/easylist.txt"@,
            "https://easylist.to/easylist/easyprivacy.txt"@,
        ]);
        urls
    }

    /// The name of the cache file of the list at `url`.
    pub fn cache_file_name(url: &str) -> (name: String)
        ensures
            name@ == cache_file_name_of(url@),
    {
        let hash = sha256_hex(url);
        let digits = chars_of(hash.as_str());
        let mut head: Vec<char> = Vec::new();
        let mut i: usize = 0;
        while i < 16
            invariant
                i <= 16,
                digits@.len() == 64,
                head@ == digits@.take(i as int),
            decreases 16 - i,
        {
            head.push(digits[i]);
            assert(head@ =~= digits@.take(i + 1));
            i += 1;
        }
        let mut name = string_of(head.as_slice());
        name.append(".txt");
        name
    }

    /// Whether a cache file is too old to use. `age_secs` is the time since
    /// it was written, or `None` where the file or its time cannot be read.
    pub fn is_stale(age_secs: Option<u64>) -> (stale: bool)
        ensures
            stale == match age_secs {
                Some(age) => age > CACHE_MAX_AGE_SECS,
                None => true,
            },
    {
        match age_secs {
            Some(age) => age > CACHE_MAX_AGE_SECS,
            None => true,
        }
    }

    /// Whether a list is downloaded: always when an update is forced, else
    /// when its cache file is stale.
    pub fn should_download(force_update: bool, age_secs: Option<u64>) -> (download: bool)
        ensures
            download == (force_update || match age_secs {
                Some(age) => age > CACHE_MAX_AGE_SECS,
                None => true,
            }),
    {
        force_update || Self::is_stale(age_secs)
    }

    /// The rules of all lists in one text, from what was found for each list.
    /// A list whose download failed is taken from its cache file; a list with
    /// neither contributes nothing.
    pub fn get_filter_rules(fetched: &Vec<ListFetch>) -> (all_rules: String)
        ensures
            all_rules@ == combined_rules(fetched@),
    {
        let mut all_rules = String::new();
        let mut i: usize = 0;
        while i < fetched.len()
            invariant
                i <= fetched.len(),
                all_rules@ == combined_rules(fetched@.take(i as int)),
            decreases fetched.len() - i,
        {
            proof {
                assert(fetched@.take(i + 1).drop_last() =~= fetched@.take(i as int));
                assert(fetched@.take(i + 1).last() == fetched@[i as int]);
                reveal_strlit("\n");
                assert("\n"@ =~= seq!['\n']);
            }
            let f = &fetched[i];
            match &f.downloaded {
                Some(d) => {
                    all_rules.append(d.as_str());
                    all_rules.append("\n");
                },
                None => match &f.cached {
                    Some(c) => {
                        all_rules.append(c.as_str());
                        all_rules.append("\n");
                    },
                    None => {},
                },
            }
            i += 1;
        }
        proof {
            assert(fetched@.take(fetched.len() as int) =~= fetched@);
        }
        all_rules
    }
}

} // verus!
