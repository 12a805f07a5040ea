use vstd::prelude::*;

use crate::app_manager::init_script::{join, joined};
use crate::text::texts;
use crate::web::{json_quoted, json_string};

verus! {

/// The script that sets the rules which hide ads in a running page, up to the rules.
pub const COSMETIC_UPDATE_HEAD: &'static str = "(function() {
                        var el = document.getElementById('__orbly_adblock_cosmetic__');
                        if (!el) {
                            el = document.createElement('style');
                            el.id = '__orbly_adblock_cosmetic__';
                            (document.head || document.documentElement).appendChild(el);
                        }
                        el.textContent = ";

/// The script that sets the rules which hide ads in a running page, behind the rules.
pub const COSMETIC_UPDATE_TAIL: &'static str = ";
                    })();";

/// The script that takes the rules which hide ads out of a running page.
pub const COSMETIC_REMOVE_SCRIPT: &'static str = "
                (function() {
                    var el = document.getElementById('__orbly_adblock_cosmetic__');
                    if (el) el.remove();
                })();
            ";

/// The style sheet of the rules as the script takes it: the rules, one to a
/// line, as a JSON string, and an empty string where there are none.
pub open spec fn cosmetic_content(css_rules: Seq<Seq<char>>) -> Seq<char> {
    if css_rules.len() > 0 {
        json_quoted(joined(css_rules, "\n"@))
    } else {
        "''"@
    }
}

/// The script that sets the rules which hide ads in a running page, after
/// the page went to another URL.
pub fn cosmetic_update_script(css_rules: &Vec<String>) -> (script: String)
    ensures
        script@ == COSMETIC_UPDATE_HEAD@ + cosmetic_content(texts(css_rules@))
            + COSMETIC_UPDATE_TAIL@,
{
    let content = if css_rules.len() > 0 {
        json_string(join(css_rules, "\n").as_str())
    } else {
        String::from_str("''")
    };
    String::from_str(COSMETIC_UPDATE_HEAD).concat(content.as_str()).concat(COSMETIC_UPDATE_TAIL)
}

/// The script that takes the rules which hide ads out of a running page,
/// when blocking is switched off for its instance.
pub fn cosmetic_remove_script() -> (script: &'static str)
    ensures
        script@ == COSMETIC_REMOVE_SCRIPT@,
{
    COSMETIC_REMOVE_SCRIPT
}

/// Switches ad blocking for an instance: the new setting is the opposite of `enabled`.
pub fn toggle_adblock(enabled: bool) -> (now: bool)
    ensures
        now == !enabled,
{
    !enabled
}

} // verus!
