use vstd::prelude::*;

use crate::config::models::DarkModeType;
use crate::number::{decimal_text, push_decimal};
use crate::web::{json_quoted, json_string};

verus! {

/// Builds the scripts that put a page in dark mode, around the injection
/// script that ships with the application.
pub struct DarkModeManager {
    inject_script: String,
}

/// The settings as the object that the page script takes.
pub open spec fn settings_object(
    mode: Seq<char>,
    brightness: u32,
    contrast: u32,
    sepia: u32,
    bg_color: Seq<char>,
    text_color: Seq<char>,
    custom_css: Seq<char>,
    between: Seq<char>,
    indent: Seq<char>,
) -> Seq<char> {
    indent + "mode: "@ + json_quoted(mode) + between + indent + "brightness: "@ + decimal_text(
        brightness as nat,
    ) + between + indent + "contrast: "@ + decimal_text(contrast as nat) + between + indent
        + "sepia: "@ + decimal_text(sepia as nat) + between + indent + "bgColor: "@ + json_quoted(
        bg_color,
    ) + between + indent + "textColor: "@ + json_quoted(text_color) + between + indent
        + "customCss: "@ + json_quoted(custom_css)
}

/// The script that a page starts with: the injection script, then the call
/// that applies the settings. Empty where there is no injection script.
pub open spec fn injection_script_of(
    inject: Seq<char>,
    mode: Seq<char>,
    brightness: u32,
    contrast: u32,
    sepia: u32,
    bg_color: Seq<char>,
    text_color: Seq<char>,
    custom_css: Seq<char>,
) -> Seq<char> {
    if inject.len() == 0 {
        Seq::<char>::empty()
    } else {
        "\n"@ + inject
            + "\n\nif (window.__ORBLY_DARK_MODE__) {\n    window.__ORBLY_DARK_MODE__.apply({\n"@
            + settings_object(
            mode,
            brightness,
            contrast,
            sepia,
            bg_color,
            text_color,
            custom_css,
            ",\n"@,
            "        "@,
        ) + "\n    });\n}\n"@
    }
}

/// The script that changes the dark mode of a loaded page: the call that
/// switches it off for the mode `off`, else the call that applies the settings.
pub open spec fn apply_script_of(
    mode: Seq<char>,
    brightness: u32,
    contrast: u32,
    sepia: u32,
    bg_color: Seq<char>,
    text_color: Seq<char>,
    custom_css: Seq<char>,
) -> Seq<char> {
    if mode == "off"@ {
        "if (window.__ORBLY_DARK_MODE__) window.__ORBLY_DARK_MODE__.disable();"@
    } else {
        "if (window.__ORBLY_DARK_MODE__) window.__ORBLY_DARK_MODE__.apply({ "@ + settings_object(
            mode,
            brightness,
            contrast,
            sepia,
            bg_color,
            text_color,
            custom_css,
            ", "@,
            Seq::<char>::empty(),
        ) + " });"@
    }
}

fn push_settings(
    out: &mut String,
    mode: &str,
    brightness: u32,
    contrast: u32,
    sepia: u32,
    bg_color: &str,
    text_color: &str,
    custom_css: &str,
    between: &str,
    indent: &str,
)
    ensures
        final(out)@ == old(out)@ + settings_object(
            mode@,
            brightness,
            contrast,
            sepia,
            bg_color@,
            text_color@,
            custom_css@,
            between@,
            indent@,
        ),
{
    out.append(indent);
    out.append("mode: ");
    out.append(json_string(mode).as_str());
    out.append(between);
    out.append(indent);
    out.append("brightness: ");
    push_decimal(out, brightness);
    out.append(between);
    out.append(indent);
    out.append("contrast: ");
    push_decimal(out, contrast);
    out.append(between);
    out.append(indent);
    out.append("sepia: ");
    push_decimal(out, sepia);
    out.append(between);
    out.append(indent);
    out.append("bgColor: ");
    out.append(json_string(bg_color).as_str());
    out.append(between);
    out.append(indent);
    out.append("textColor: ");
    out.append(json_string(text_color).as_str());
    out.append(between);
    out.append(indent);
    out.append("customCss: ");
    out.append(json_string(custom_css).as_str());
    assert(out@ =~= old(out)@ + settings_object(
        mode@,
        brightness,
        contrast,
        sepia,
        bg_color@,
        text_color@,
        custom_css@,
        between@,
        indent@,
    ));
}

impl DarkModeManager {
    /// The injection script that is built around.
    pub closed spec fn script(&self) -> Seq<char> {
        self.inject_script@
    }

    /// A manager around the injection script `inject_script`, which is
    /// empty where the application ships none.
    pub fn new(inject_script: String) -> (m: Self)
        ensures
            m.script() == inject_script@,
    {
        DarkModeManager { inject_script }
    }

    /// The script that a page starts with. It is there for every mode, `off`
    /// included, so that the mode can be changed while the page runs.
    pub fn get_injection_script(
        &self,
        mode: &str,
        brightness: u32,
        contrast: u32,
        sepia: u32,
        bg_color: &str,
        text_color: &str,
        custom_css: &str,
    ) -> (script: String)
        ensures
            script@ == injection_script_of(
                self.script(),
                mode@,
                brightness,
                contrast,
                sepia,
                bg_color@,
                text_color@,
                custom_css@,
            ),
    {
        if self.inject_script.as_str().is_empty() {
            return String::new();
        }
        let mut out = String::from_str("\n");
        out.append(self.inject_script.as_str());
        out.append(
            "\n\nif (window.__ORBLY_DARK_MODE__) {\n    window.__ORBLY_DARK_MODE__.apply({\n",
        );
        push_settings(
            &mut out,
            mode,
            brightness,
            contrast,
            sepia,
            bg_color,
            text_color,
            custom_css,
            ",\n",
            "        ",
        );
        out.append("\n    });\n}\n");
        out
    }

    /// The script that changes the dark mode of a page that already runs
    /// the injection script.
    pub fn get_apply_script(
        &self,
        mode: &str,
        brightness: u32,
        contrast: u32,
        sepia: u32,
        bg_color: &str,
        text_color: &str,
        custom_css: &str,
    ) -> (script: String)
        ensures
            script@ == apply_script_of(
                mode@,
                brightness,
                contrast,
                sepia,
                bg_color@,
                text_color@,
                custom_css@,
            ),
    {
        if mode.eq("off") {
            return String::from_str(
                "if (window.__ORBLY_DARK_MODE__) window.__ORBLY_DARK_MODE__.disable();",
            );
        }
        let mut out = String::from_str(
            "if (window.__ORBLY_DARK_MODE__) window.__ORBLY_DARK_MODE__.apply({ ",
        );
        push_settings(
            &mut out,
            mode,
            brightness,
            contrast,
            sepia,
            bg_color,
            text_color,
            custom_css,
            ", ",
            "",
        );
        out.append(" });");
        proof {
            reveal_strlit("");
            assert(""@ =~= Seq::<char>::empty());
        }
        out
    }
}

/// The name of a dark mode in scripts and settings.
pub open spec fn mode_name(mode: DarkModeType) -> Seq<char> {
    match mode {
        DarkModeType::Off => "off"@,
        DarkModeType::Dynamic => "dynamic"@,
        DarkModeType::Filter => "filter"@,
        DarkModeType::Static => "static"@,
    }
}

/// The name of a dark mode in scripts and settings.
pub fn dark_mode_name(mode: DarkModeType) -> (name: &'static str)
    ensures
        name@ == mode_name(mode),
{
    match mode {
        DarkModeType::Off => "off",
        DarkModeType::Dynamic => "dynamic",
        DarkModeType::Filter => "filter",
        DarkModeType::Static => "static",
    }
}

/// The dark mode of a name; every name but those of the three modes stands for `Off`.
pub fn parse_dark_mode(name: &str) -> (mode: DarkModeType)
    ensures
        mode == if name@ == "dynamic"@ {
            DarkModeType::Dynamic
        } else if name@ == "filter"@ {
            DarkModeType::Filter
        } else if name@ == "static"@ {
            DarkModeType::Static
        } else {
            DarkModeType::Off
        },
{
    if name.eq("dynamic") {
        DarkModeType::Dynamic
    } else if name.eq("filter") {
        DarkModeType::Filter
    } else if name.eq("static") {
        DarkModeType::Static
    } else {
        DarkModeType::Off
    }
}

/// The mode that follows `mode` when the user toggles: off, dynamic, filter,
/// static, and off again.
pub fn toggle_dark_mode(mode: DarkModeType) -> (next: DarkModeType)
    ensures
        next == match mode {
            DarkModeType::Off => DarkModeType::Dynamic,
            DarkModeType::Dynamic => DarkModeType::Filter,
            DarkModeType::Filter => DarkModeType::Static,
            DarkModeType::Static => DarkModeType::Off,
        },
{
    match mode {
        DarkModeType::Off => DarkModeType::Dynamic,
        DarkModeType::Dynamic => DarkModeType::Filter,
        DarkModeType::Filter => DarkModeType::Static,
        DarkModeType::Static => DarkModeType::Off,
    }
}

} // verus!
