use vstd::prelude::*;

use crate::text::{
    chars_of, find_chars, first_occurrence, lowercase, opt_text, slice_chars, starts_with_str,
    string_of,
};
use crate::web::{base64_encode, base64_standard, parsed_host, parsed_scheme, url_host, url_scheme};

verus! {

/// Why no icon was found.
#[derive(Debug, PartialEq, Eq)]
pub enum FaviconError {
    /// The address of the page is no URL.
    InvalidUrl,
    /// The icon that was fetched is empty.
    EmptyIcon,
}

/// The address of the site of the page at `url`: its scheme, `://`, and
/// its host, which is empty where the URL has none.
pub open spec fn site_base(url: Seq<char>) -> Seq<char> {
    parsed_scheme(url)->0 + "://"@ + match parsed_host(url) {
        Some(h) => h,
        None => Seq::<char>::empty(),
    }
}

/// The address of the site of the page at `url`. Fails where `url` is no URL.
pub fn favicon_base(url: &str) -> (r: Result<String, FaviconError>)
    ensures
        match r {
            Ok(base) => parsed_scheme(url@) is Some && base@ == site_base(url@),
            Err(e) => parsed_scheme(url@) is None && e == FaviconError::InvalidUrl,
        },
{
    let scheme = match url_scheme(url) {
        Some(s) => s,
        None => {
            return Err(FaviconError::InvalidUrl);
        },
    };
    let mut base = scheme;
    base.append("://");
    match url_host(url) {
        Some(h) => {
            base.append(h.as_str());
        },
        None => {
            assert(base@ + Seq::<char>::empty() =~= base@);
        },
    }
    Ok(base)
}

/// The icon address that a `href` stands for on the site `base`: an absolute
/// address as it is, one that starts with `//` with `https:` before it, and
/// a path behind `base`.
pub open spec fn resolved_href(href: Seq<char>, base: Seq<char>) -> Seq<char> {
    if "http://"@.is_prefix_of(href) || "https://"@.is_prefix_of(href) {
        href
    } else if "//"@.is_prefix_of(href) {
        "https:"@ + href
    } else if "/"@.is_prefix_of(href) {
        base + href
    } else {
        base + "/"@ + href
    }
}

/// The icon address that a `href` stands for on the site `base`.
pub fn resolve_href(href: &[char], base: &str) -> (r: String)
    ensures
        r@ == resolved_href(href@, base@),
{
    let text = string_of(href);
    if starts_with_str(href, "http://") || starts_with_str(href, "https://") {
        text
    } else if starts_with_str(href, "//") {
        String::from_str("https:").concat(text.as_str())
    } else if starts_with_str(href, "/") {
        String::from_str(base).concat(text.as_str())
    } else {
        String::from_str(base).concat("/").concat(text.as_str())
    }
}

/// What a `link` tag gives.
pub enum TagHref {
    /// The tag names an icon at this `href`.
    Found(Seq<char>),
    /// The tag ends in the middle of a `href`, and the search with it.
    Broken,
    /// The tag names no icon of the kind that is looked for.
    Nothing,
}

/// What the tag `tag`, with the lowercase form `tag_lower`, gives for the
/// relation `rel`. A tag counts if `rel` occurs in it; its `href` is what
/// stands between quotes of one kind behind the first `href=`.
pub open spec fn tag_href(tag: Seq<char>, tag_lower: Seq<char>, rel: Seq<char>) -> TagHref {
    if first_occurrence(tag_lower, rel, 0) is None {
        TagHref::Nothing
    } else {
        match first_occurrence(tag_lower, "href="@, 0) {
            None => TagHref::Nothing,
            Some(at) => {
                let after = tag.skip(at + 5);
                if after.len() == 0 {
                    TagHref::Broken
                } else if after[0] != '"' && after[0] != '\'' {
                    TagHref::Nothing
                } else {
                    match first_occurrence(after.skip(1), seq![after[0]], 0) {
                        Some(end) => TagHref::Found(after.subrange(1, 1 + end)),
                        None => TagHref::Nothing,
                    }
                }
            },
        }
    }
}

/// The address of the first icon that a `link` tag from position `from` on
/// names for the relation `rel`. `lower` is the lowercase form of the page
/// `orig`, character for character. The search ends without result at a
/// `link` tag that is not closed.
pub open spec fn link_href_from(
    lower: Seq<char>,
    orig: Seq<char>,
    rel: Seq<char>,
    base: Seq<char>,
    from: int,
) -> Option<Seq<char>>
    decreases lower.len() - from,
{
    match first_occurrence(lower, "<link"@, from) {
        None => None,
        Some(start) => match first_occurrence(lower, seq!['>'], start) {
            None => None,
            Some(end) => if from <= start <= end < lower.len() {
                match tag_href(
                    orig.subrange(start, end + 1),
                    lower.subrange(start, end + 1),
                    rel,
                ) {
                    TagHref::Found(href) => Some(resolved_href(href, base)),
                    TagHref::Broken => None,
                    TagHref::Nothing => link_href_from(lower, orig, rel, base, end + 1),
                }
            } else {
                None
            },
        },
    }
}

enum TagScan {
    Found(Vec<char>),
    Broken,
    Nothing,
}

fn scan_tag(tag: &[char], tag_lower: &[char], rel: &[char]) -> (r: TagScan)
    requires
        tag@.len() == tag_lower@.len(),
    ensures
        match r {
            TagScan::Found(href) => tag_href(tag@, tag_lower@, rel@) == TagHref::Found(href@),
            TagScan::Broken => tag_href(tag@, tag_lower@, rel@) == TagHref::Broken,
            TagScan::Nothing => tag_href(tag@, tag_lower@, rel@) == TagHref::Nothing,
        },
{
    if find_chars(tag_lower, rel, 0).is_none() {
        return TagScan::Nothing;
    }
    let key = chars_of("href=");
    proof {
        reveal_strlit("href=");
        assert(key@.len() == 5);
    }
    let at = match find_chars(tag_lower, key.as_slice(), 0) {
        Some(at) => at,
        None => {
            return TagScan::Nothing;
        },
    };
    let tag_len = tag.len();
    assert(at + 5 <= tag_len);
    let after = slice_chars(tag, at + 5, tag_len);
    assert(after@ =~= tag@.skip(at + 5));
    if after.len() == 0 {
        return TagScan::Broken;
    }
    let quote = after[0];
    if quote != '"' && quote != '\'' {
        return TagScan::Nothing;
    }
    let value = slice_chars(after.as_slice(), 1, after.len());
    assert(value@ =~= after@.skip(1));
    let mut needle: Vec<char> = Vec::new();
    needle.push(quote);
    assert(needle@ =~= seq![quote]);
    match find_chars(value.as_slice(), needle.as_slice(), 0) {
        Some(end) => {
            let href = slice_chars(after.as_slice(), 1, 1 + end);
            TagScan::Found(href)
        },
        None => TagScan::Nothing,
    }
}

/// Looks in a page for the first `link` tag of the relation `rel_value` and
/// gives the address of its icon. `html_lower` has to be the page in
/// lowercase and line up with the page `html_orig` character for character.
#[verifier::loop_isolation(false)]
pub fn extract_link_href(html_lower: &str, html_orig: &str, rel_value: &str, base: &str) -> (r:
    Option<String>)
    requires
        html_lower@.len() == html_orig@.len(),
    ensures
        opt_text(r) == link_href_from(html_lower@, html_orig@, rel_value@, base@, 0),
{
    let lower = chars_of(html_lower);
    let orig = chars_of(html_orig);
    let rel = chars_of(rel_value);
    let open_tag = chars_of("<link");
    let mut close: Vec<char> = Vec::new();
    close.push('>');
    assert(close@ =~= seq!['>']);
    let ghost whole = link_href_from(html_lower@, html_orig@, rel_value@, base@, 0);
    let mut search_from: usize = 0;
    while search_from <= lower.len()
        invariant
            whole == link_href_from(lower@, orig@, rel@, base@, search_from as int),
        decreases lower.len() + 1 - search_from,
    {
        let start = match find_chars(lower.as_slice(), open_tag.as_slice(), search_from) {
            Some(s) => s,
            None => {
                return None;
            },
        };
        let end = match find_chars(lower.as_slice(), close.as_slice(), start) {
            Some(e) => e,
            None => {
                return None;
            },
        };
        let tag = slice_chars(orig.as_slice(), start, end + 1);
        let tag_lower = slice_chars(lower.as_slice(), start, end + 1);
        match scan_tag(tag.as_slice(), tag_lower.as_slice(), rel.as_slice()) {
            TagScan::Found(href) => {
                return Some(resolve_href(href.as_slice(), base));
            },
            TagScan::Broken => {
                return None;
            },
            TagScan::Nothing => {},
        }
        search_from = end + 1;
    }
    proof {
        assert(first_occurrence(lower@, "<link"@, search_from as int) is None) by {
            reveal_strlit("<link");
            crate::text::lemma_no_occurrence(lower@, "<link"@, search_from as int);
        }
    }
    None
}

/// The address of the icon that the page names: that of an Apple touch
/// icon if there is one, else of a shortcut icon, else of a plain icon.
pub open spec fn icon_url_in(lower: Seq<char>, orig: Seq<char>, base: Seq<char>) -> Option<
    Seq<char>,
> {
    if link_href_from(lower, orig, "apple-touch-icon"@, base, 0) is Some {
        link_href_from(lower, orig, "apple-touch-icon"@, base, 0)
    } else if link_href_from(lower, orig, "shortcut icon"@, base, 0) is Some {
        link_href_from(lower, orig, "shortcut icon"@, base, 0)
    } else {
        link_href_from(lower, orig, "\"icon\""@, base, 0)
    }
}

/// The address of the icon that the page `html` names, if it names one.
/// A page whose lowercase form does not line up with it character for
/// character is not searched.
pub fn find_icon_url(html: &str, base: &str) -> (r: Option<String>)
    ensures
        opt_text(r) == if lowercase(html@).len() == html@.len() {
            icon_url_in(lowercase(html@), html@, base@)
        } else {
            None
        },
{
    let html_lower = html.to_lowercase();
    if html_lower.as_str().unicode_len() != html.unicode_len() {
        return None;
    }
    match extract_link_href(html_lower.as_str(), html, "apple-touch-icon", base) {
        Some(url) => {
            return Some(url);
        },
        None => {},
    }
    match extract_link_href(html_lower.as_str(), html, "shortcut icon", base) {
        Some(url) => {
            return Some(url);
        },
        None => {},
    }
    extract_link_href(html_lower.as_str(), html, "\"icon\"", base)
}

/// The address at which the icon of a site is looked for: what its page
/// names, and `favicon.ico` at the root of the site where the page could not
/// be fetched or names none.
pub fn icon_url_for(html: Option<&str>, base: &str) -> (url: String)
    ensures
        url@ == match html {
            Some(page) => if lowercase(page@).len() == page@.len() && icon_url_in(
                lowercase(page@),
                page@,
                base@,
            ) is Some {
                icon_url_in(lowercase(page@), page@, base@)->0
            } else {
                base@ + "/favicon.ico"@
            },
            None => base@ + "/favicon.ico"@,
        },
{
    let found = match html {
        Some(page) => find_icon_url(page, base),
        None => None,
    };
    match found {
        Some(url) => url,
        None => String::from_str(base).concat("/favicon.ico"),
    }
}

/// The media type under which an icon is handed on, by the content type
/// that it came with: the first of `png`, `svg`, `gif`, `jpeg` or `jpg` that
/// the content type names, else that of an `ico` file.
pub open spec fn icon_mime(content_type: Seq<char>) -> Seq<char> {
    if first_occurrence(content_type, "png"@, 0) is Some {
        "image/png"@
    } else if first_occurrence(content_type, "svg"@, 0) is Some {
        "image/svg+xml"@
    } else if first_occurrence(content_type, "gif"@, 0) is Some {
        "image/gif"@
    } else if first_occurrence(content_type, "jpeg"@, 0) is Some || first_occurrence(
        content_type,
        "jpg"@,
        0,
    ) is Some {
        "image/jpeg"@
    } else {
        "image/x-icon"@
    }
}

fn names(content_type: &[char], word: &str) -> (b: bool)
    ensures
        b == (first_occurrence(content_type@, word@, 0) is Some),
{
    let w = chars_of(word);
    find_chars(content_type, w.as_slice(), 0).is_some()
}

/// The media type under which an icon is handed on.
pub fn mime_for(content_type: &str) -> (mime: &'static str)
    ensures
        mime@ == icon_mime(content_type@),
{
    let ct = chars_of(content_type);
    if names(ct.as_slice(), "png") {
        "image/png"
    } else if names(ct.as_slice(), "svg") {
        "image/svg+xml"
    } else if names(ct.as_slice(), "gif") {
        "image/gif"
    } else if names(ct.as_slice(), "jpeg") || names(ct.as_slice(), "jpg") {
        "image/jpeg"
    } else {
        "image/x-icon"
    }
}

/// An icon as a `data:` URL: its media type, then its bytes in base64.
/// Fails for an icon without bytes.
pub fn favicon_data_url(content_type: &str, bytes: &[u8]) -> (r: Result<String, FaviconError>)
    ensures
        match r {
            Ok(url) => bytes@.len() > 0 && url@ == "data:"@ + icon_mime(content_type@)
                + ";base64,"@ + base64_standard(bytes@),
            Err(e) => bytes@.len() == 0 && e == FaviconError::EmptyIcon,
        },
{
    if bytes.len() == 0 {
        return Err(FaviconError::EmptyIcon);
    }
    let encoded = base64_encode(bytes);
    Ok(
        String::from_str("data:").concat(mime_for(content_type)).concat(";base64,").concat(
            encoded.as_str(),
        ),
    )
}

} // verus!
