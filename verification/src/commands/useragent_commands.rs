use vstd::prelude::*;

verus! {

/// The label and the user agent text of each preset.
pub open spec fn preset_views(presets: Seq<(String, String)>) -> Seq<(Seq<char>, Seq<char>)> {
    presets.map_values(|p: (String, String)| (p.0@, p.1@))
}

/// The user agents that are offered, each with its label. An empty user
/// agent stands for the one of the system.
pub fn get_ua_presets() -> (presets: Vec<(String, String)>)
    ensures
        preset_views(presets@) == seq![
            ("Default"@, ""@),
            (
                "Chrome"@,
                "Mozilla/5.0 (Macintosh; Intel Mac OS X 10_15_7) AppleWebKit/537.36 (KHTML, like Gecko) Chrome/137.0.0.0 Safari/537.36"@,
            ),
            (
                "Firefox"@,
                "Mozilla/5.0 (Macintosh; Intel Mac OS X 10.15; rv:138.0) Gecko/20100101 Firefox/138.0"@,
            ),
            (
                "Safari"@,
                "Mozilla/5.0 (Macintosh; Intel Mac OS X 10_15_7) AppleWebKit/605.1.15 (KHTML, like Gecko) Version/18.3 Safari/605.1.15"@,
            ),
            (
                "Mobile Safari"@,
                "Mozilla/5.0 (iPhone; CPU iPhone OS 18_3 like Mac OS X) AppleWebKit/605.1.15 (KHTML, like Gecko) Version/18.3 Mobile/15E148 Safari/604.1"@,
            ),
        ],
{
    let mut presets: Vec<(String, String)> = Vec::new();
    presets.push((String::from_str("Default"), String::from_str("")));
    presets.push(
        (
            String::from_str("Chrome"),
            String::from_str(
                "Mozilla/5.0 (Macintosh; Intel Mac OS X 10_15_7) AppleWebKit/537.36 (KHTML, like Gecko) Chrome/137.0.0.0 Safari/537.36",
            ),
        ),
    );
    presets.push(
        (
            String::from_str("Firefox"),
            String::from_str(
                "Mozilla/5.0 (Macintosh; Intel Mac OS X 10.15; rv:138.0) Gecko/20100101 Firefox/138.0",
            ),
        ),
    );
    presets.push(
        (
            String::from_str("Safari"),
            String::from_str(
                "Mozilla/5.0 (Macintosh; Intel Mac OS X 10_15_7) AppleWebKit/605.1.15 (KHTML, like Gecko) Version/18.3 Safari/605.1.15",
            ),
        ),
    );
    presets.push(
        (
            String::from_str("Mobile Safari"),
            String::from_str(
                "Mozilla/5.0 (iPhone; CPU iPhone OS 18_3 like Mac OS X) AppleWebKit/605.1.15 (KHTML, like Gecko) Version/18.3 Mobile/15E148 Safari/604.1",
            ),
        ),
    );
    assert(preset_views(presets@) =~= seq![
        ("Default"@, ""@),
        (
            "Chrome"@,
            "Mozilla/5.0 (Macintosh; Intel Mac OS X 10_15_7) AppleWebKit/537.36 (KHTML, like Gecko) Chrome/137.0.0.0 Safari/537.36"@,
        ),
        (
            "Firefox"@,
            "Mozilla/5.0 (Macintosh; Intel Mac OS X 10.15; rv:138.0) Gecko/20100101 Firefox/138.0"@,
        ),
        (
            "Safari"@,
            "Mozilla/5.0 (Macintosh; Intel Mac OS X 10_15_7) AppleWebKit/605.1.15 (KHTML, like Gecko) Version/18.3 Safari/605.1.15"@,
        ),
        (
            "Mobile Safari"@,
            "Mozilla/5.0 (iPhone; CPU iPhone OS 18_3 like Mac OS X) AppleWebKit/605.1.15 (KHTML, like Gecko) Version/18.3 Mobile/15E148 Safari/604.1"@,
        ),
    ]);
    presets
}

} // verus!
