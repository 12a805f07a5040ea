use vstd::prelude::*;

use crate::text::opt_text;

verus! {

/// The scheme of the absolute URL that a text reads as, in lowercase and
/// without the colon; `None` where the text does not read as one.
pub uninterp spec fn parsed_scheme(url: Seq<char>) -> Option<Seq<char>>;

/// The host of the absolute URL that a text reads as; `None` where the text
/// does not read as one, or the URL has no host.
pub uninterp spec fn parsed_host(url: Seq<char>) -> Option<Seq<char>>;

/// A text written as a JSON string, quotes included.
pub uninterp spec fn json_quoted(s: Seq<char>) -> Seq<char>;

/// A byte string in the standard base64 alphabet, with padding.
pub uninterp spec fn base64_standard(bytes: Seq<u8>) -> Seq<char>;

/// `base64::Engine::encode` of the engine `general_purpose::STANDARD`:
/// `bytes` in base64 with the standard alphabet and padding.
#[verifier::external_body]
pub(crate) fn base64_encode(bytes: &[u8]) -> (encoded: String)
    ensures
        encoded@ == base64_standard(bytes@),
{
    ::base64::Engine::encode(&::base64::engine::general_purpose::STANDARD, bytes)
}

/// `url::Url::parse`, then `url::Url::scheme`: the scheme of `url`, or
/// `None` where `url` does not parse.
#[verifier::external_body]
pub(crate) fn url_scheme(url: &str) -> (scheme: Option<String>)
    ensures
        opt_text(scheme) == parsed_scheme(url@),
{
    match ::url::Url::parse(url) {
        Ok(parsed) => Some(parsed.scheme().to_string()),
        Err(_) => None,
    }
}

/// `url::Url::parse`, then `url::Url::host_str`: the host of `url`, or
/// `None` where `url` does not parse or has no host.
#[verifier::external_body]
pub(crate) fn url_host(url: &str) -> (host: Option<String>)
    ensures
        opt_text(host) == parsed_host(url@),
{
    match ::url::Url::parse(url) {
        Ok(parsed) => match parsed.host_str() {
            Some(host) => Some(host.to_string()),
            None => None,
        },
        Err(_) => None,
    }
}

/// `serde_json::to_string` on a string: `s` as a JSON string. Writing a
/// string as JSON does not fail.
#[verifier::external_body]
pub(crate) fn json_string(s: &str) -> (json: String)
    ensures
        json@ == json_quoted(s@),
{
    ::serde_json::to_string(s).unwrap_or_default()
}

} // verus!
