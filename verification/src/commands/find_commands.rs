use vstd::prelude::*;

use crate::web::{json_quoted, json_string};

verus! {

/// The script that counts the matches, up to the query.
pub const FIND_COUNT_HEAD: &'static str = "(function() {
                var q = ";

/// The script that counts the matches, between the query and the first instance id.
pub const FIND_COUNT_EMPTY: &'static str = ";
                if (!q) { if (window.__TAURI_INTERNALS__) window.__TAURI_INTERNALS__.invoke('on_find_count', { app_id: '";

/// The script that counts the matches, between the two instance ids.
pub const FIND_COUNT_MIDDLE: &'static str = "', count: 0 }); return; }
                var text = document.body.innerText || '';
                var lower = text.toLowerCase();
                var search = q.toLowerCase();
                var count = 0;
                var pos = 0;
                while ((pos = lower.indexOf(search, pos)) !== -1) { count++; pos += search.length; }
                if (window.__TAURI_INTERNALS__) window.__TAURI_INTERNALS__.invoke('on_find_count', { app_id: '";

/// The script that counts the matches, behind the second instance id.
pub const FIND_COUNT_TAIL: &'static str = "', count: count });
            })()";

/// The script that takes the selection of a search away.
pub const CLEAR_FIND_SCRIPT: &'static str = "window.getSelection().removeAllRanges()";

/// The script that finds the next match of `query` in a page, or the
/// previous one where `forward` is not set.
pub open spec fn find_script_of(query: Seq<char>, forward: bool) -> Seq<char> {
    "window.find("@ + json_quoted(query) + ", false, "@ + (if forward {
        "false"@
    } else {
        "true"@
    }) + ", true, false, true, false)"@
}

/// The script that finds the next match of `query` in a page, or the
/// previous one where `forward` is not set.
pub fn find_in_page(query: &str, forward: bool) -> (script: String)
    ensures
        script@ == find_script_of(query@, forward),
{
    let backwards = if forward {
        "false"
    } else {
        "true"
    };
    String::from_str("window.find(").concat(json_string(query).as_str()).concat(", false, ").concat(
        backwards,
    ).concat(", true, false, true, false)")
}

/// The script that counts the matches of `query` in the page of `app_id`
/// and reports the count to the host.
pub open spec fn find_count_script_of(app_id: Seq<char>, query: Seq<char>) -> Seq<char> {
    FIND_COUNT_HEAD@ + json_quoted(query) + FIND_COUNT_EMPTY@ + app_id + FIND_COUNT_MIDDLE@
        + app_id + FIND_COUNT_TAIL@
}

/// The script that counts the matches of `query` in the page of `app_id`
/// and reports the count to the host.
pub fn get_find_count(app_id: &str, query: &str) -> (script: String)
    ensures
        script@ == find_count_script_of(app_id@, query@),
{
    String::from_str(FIND_COUNT_HEAD).concat(json_string(query).as_str()).concat(
        FIND_COUNT_EMPTY,
    ).concat(app_id).concat(FIND_COUNT_MIDDLE).concat(app_id).concat(FIND_COUNT_TAIL)
}

/// The script that takes the selection of a search away.
pub fn clear_find_in_page() -> (script: &'static str)
    ensures
        script@ == CLEAR_FIND_SCRIPT@,
{
    CLEAR_FIND_SCRIPT
}

} // verus!
