pub mod manager;

pub use manager::{DownloadEntry, DownloadManager, DownloadStatus};
use vstd::prelude::*;

use crate::number::{decimal_text, push_decimal};
use crate::text::{chars_of, contains_text, slice_chars, string_of, texts};
use crate::web::{json_quoted, json_string};

verus! {

/// How many numbered names are tried for a file whose name is taken.
pub const MAX_CONFLICT_SUFFIX: u32 = 1000;

/// Whether position `k` holds the last dot of `name`.
pub open spec fn last_dot_at(name: Seq<char>, k: int) -> bool {
    &&& 0 <= k < name.len()
    &&& name[k] == '.'
    &&& forall|j: int| k < j < name.len() ==> name[j] != '.'
}

/// Whether a file name has an extension: it is neither `.` nor `..`, and
/// has a dot that is not its first character.
pub open spec fn has_extension(name: Seq<char>) -> bool {
    name != "."@ && name != ".."@ && exists|k: int| k > 0 && last_dot_at(name, k)
}

/// The name without its extension. `.` and `..` name no file and have no stem.
pub open spec fn file_stem(name: Seq<char>) -> Seq<char> {
    if name == "."@ || name == ".."@ {
        Seq::<char>::empty()
    } else if has_extension(name) {
        name.take(choose|k: int| k > 0 && last_dot_at(name, k))
    } else {
        name
    }
}

/// The extension with its dot; empty for a name without extension.
pub open spec fn dotted_extension(name: Seq<char>) -> Seq<char> {
    if has_extension(name) {
        name.skip(choose|k: int| k > 0 && last_dot_at(name, k))
    } else {
        Seq::<char>::empty()
    }
}

/// The `i`-th other name for a file: the number in brackets between stem and extension.
pub open spec fn numbered_name(name: Seq<char>, i: nat) -> Seq<char> {
    file_stem(name) + " ("@ + decimal_text(i) + ")"@ + dotted_extension(name)
}

/// The first of the numbered names from `i` on, below
/// `MAX_CONFLICT_SUFFIX`, that is not taken.
pub open spec fn first_free_name(name: Seq<char>, taken: Seq<Seq<char>>, i: nat) -> Option<
    Seq<char>,
>
    decreases MAX_CONFLICT_SUFFIX - i,
{
    if i >= MAX_CONFLICT_SUFFIX {
        None
    } else if !taken.contains(numbered_name(name, i)) {
        Some(numbered_name(name, i))
    } else {
        first_free_name(name, taken, i + 1)
    }
}

/// The name under which a file is saved when the names `taken` exist
/// already: its own if that is free, else the first free numbered name, and
/// its own again where none of them is free.
pub open spec fn resolved_name(name: Seq<char>, taken: Seq<Seq<char>>) -> Seq<char> {
    if !taken.contains(name) {
        name
    } else {
        match first_free_name(name, taken, 1) {
            Some(free) => free,
            None => name,
        }
    }
}

/// Splits a file name into its stem and its extension with the dot.
pub fn split_extension(name: &str) -> (r: (String, String))
    ensures
        r.0@ == file_stem(name@),
        r.1@ == dotted_extension(name@),
{
    if name.eq(".") || name.eq("..") {
        return (String::new(), String::new());
    }
    let chars = chars_of(name);
    let n = chars.len();
    let mut k: usize = n;
    while k > 0 && chars[k - 1] != '.'
        invariant
            k <= n,
            n == chars@.len(),
            forall|j: int| k <= j < n ==> chars@[j] != '.',
        decreases k,
    {
        k -= 1;
    }
    if k <= 1 {
        proof {
            if exists|d: int| d > 0 && last_dot_at(chars@, d) {
                let d = choose|d: int| d > 0 && last_dot_at(chars@, d);
                if k == 1 {
                    assert(chars@[0] == '.');
                }
                assert(d >= k);
            }
        }
        return (name.to_owned(), String::new());
    }
    proof {
        assert(last_dot_at(chars@, k - 1));
        let d = choose|d: int| d > 0 && last_dot_at(chars@, d);
        assert(d == k - 1) by {
            if d < k - 1 {
                assert(chars@[k - 1] != '.');
            }
            if d > k - 1 {
                assert(chars@[d] != '.');
            }
        }
    }
    let stem = slice_chars(chars.as_slice(), 0, k - 1);
    let ext = slice_chars(chars.as_slice(), k - 1, n);
    assert(stem@ =~= chars@.take(k - 1));
    assert(ext@ =~= chars@.skip(k - 1));
    (string_of(stem.as_slice()), string_of(ext.as_slice()))
}

/// The name under which a file named `file_name` is saved in a directory
/// that holds files of the names `taken`.
#[verifier::loop_isolation(false)]
pub fn resolve_filename_conflict(file_name: &str, taken: &Vec<String>) -> (r: String)
    ensures
        r@ == resolved_name(file_name@, texts(taken@)),
{
    if !contains_text(taken, file_name) {
        return file_name.to_owned();
    }
    let (stem, ext) = split_extension(file_name);
    let mut i: u32 = 1;
    while i < MAX_CONFLICT_SUFFIX
        invariant
            1 <= i <= MAX_CONFLICT_SUFFIX,
            stem@ == file_stem(file_name@),
            ext@ == dotted_extension(file_name@),
            first_free_name(file_name@, texts(taken@), 1) == first_free_name(
                file_name@,
                texts(taken@),
                i as nat,
            ),
        decreases MAX_CONFLICT_SUFFIX - i,
    {
        let mut candidate = stem.clone();
        candidate.append(" (");
        push_decimal(&mut candidate, i);
        candidate.append(")");
        candidate.append(ext.as_str());
        assert(candidate@ =~= numbered_name(file_name@, i as nat));
        if !contains_text(taken, candidate.as_str()) {
            return candidate;
        }
        i += 1;
    }
    file_name.to_owned()
}

/// The name under which a download is kept: the last part of the path of
/// its URL, and `download` where there is none or it is no plain file name.
pub fn download_filename(last_segment: Option<&str>) -> (name: String)
    ensures
        name@ == match last_segment {
            Some(s) => if plain_file_name(s@) {
                s@
            } else {
                "download"@
            },
            None => "download"@,
        },
{
    match last_segment {
        Some(s) => {
            let chars = chars_of(s);
            let mut i: usize = 0;
            let mut plain = !(s.is_empty() || s.eq(".") || s.eq(".."));
            while i < chars.len()
                invariant
                    i <= chars.len(),
                    chars@ == s@,
                    plain == (!(s@.len() == 0 || s@ == "."@ || s@ == ".."@) && forall|j: int|
                        0 <= j < i ==> chars@[j] != '/' && chars@[j] != '\\'),
                decreases chars.len() - i,
            {
                if chars[i] == '/' || chars[i] == '\\' {
                    plain = false;
                }
                i += 1;
            }
            if plain {
                s.to_owned()
            } else {
                String::from_str("download")
            }
        },
        None => String::from_str("download"),
    }
}

/// Whether a text can be the name of a file in a directory: it is not
/// empty, neither `.` nor `..`, and holds neither slash nor backslash.
pub open spec fn plain_file_name(s: Seq<char>) -> bool {
    &&& s.len() > 0
    &&& s != "."@
    &&& s != ".."@
    &&& forall|j: int| 0 <= j < s.len() ==> s[j] != '/' && s[j] != '\\'
}

/// Where the downloads of an instance go.
#[derive(Debug, PartialEq, Eq)]
pub enum DownloadDirectory {
    /// The directory that is configured, for the instance or for all.
    Configured(String),
    /// The download directory of the system.
    SystemDefault,
}

/// Chooses the directory for the downloads of an instance: its own if it
/// has one, else the one for all instances unless that is empty or
/// `~/Downloads`, and else the one of the system.
pub fn download_directory(app_directory: &str, global_directory: &str) -> (d: DownloadDirectory)
    ensures
        d == if app_directory@.len() > 0 {
            DownloadDirectory::Configured(d->Configured_0)
        } else if global_directory@.len() > 0 && global_directory@ != "~/Downloads"@ {
            DownloadDirectory::Configured(d->Configured_0)
        } else {
            DownloadDirectory::SystemDefault
        },
        d is Configured ==> d->Configured_0@ == if app_directory@.len() > 0 {
            app_directory@
        } else {
            global_directory@
        },
{
    if !app_directory.is_empty() {
        DownloadDirectory::Configured(app_directory.to_owned())
    } else if !global_directory.is_empty() && !global_directory.eq("~/Downloads") {
        DownloadDirectory::Configured(global_directory.to_owned())
    } else {
        DownloadDirectory::SystemDefault
    }
}

/// The script that starts a download anew, up to the URL.
pub const RETRY_SCRIPT_HEAD: &'static str = "(function() {
            var a = document.createElement('a');
            a.href = ";

/// The script that starts a download anew, behind the URL.
pub const RETRY_SCRIPT_TAIL: &'static str = ";
            a.download = '';
            a.style.display = 'none';
            document.body.appendChild(a);
            a.click();
            document.body.removeChild(a);
        })();";

/// The script that makes a page download `url` once more.
pub fn retry_download_script(url: &str) -> (script: String)
    ensures
        script@ == RETRY_SCRIPT_HEAD@ + json_quoted(url@) + RETRY_SCRIPT_TAIL@,
{
    String::from_str(RETRY_SCRIPT_HEAD).concat(json_string(url).as_str()).concat(RETRY_SCRIPT_TAIL)
}

} // verus!
