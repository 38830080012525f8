//! Recognising the base URLs that identify property types.
use vstd::prelude::*;
use vstd::utf8::encode_utf8;

use crate::text::chars_of;

verus! {

broadcast use vstd::string::group_string_axioms;

/// Whether `s` parses as an absolute URL.
pub uninterp spec fn parses_as_url(s: Seq<char>) -> bool;

/// Relies on `url::Url::parse`: whether `s` parses as an absolute URL, which
/// depends on the text alone.
#[verifier::external_body]
fn url_parses(s: &str) -> (r: bool)
    ensures
        r == parses_as_url(s@),
{
    url::Url::parse(s).is_ok()
}

/// The most bytes that a base URL may take.
pub const MAX_BASE_URL_BYTES: usize = 2048;

/// A base URL: at most 2048 bytes of UTF-8, ending in `/`, and an absolute
/// URL.
pub open spec fn is_base_url(s: Seq<char>) -> bool {
    &&& encode_utf8(s).len() <= MAX_BASE_URL_BYTES
    &&& s.len() > 0
    &&& s.last() == '/'
    &&& parses_as_url(s)
}

/// Whether `s` is a base URL.
pub fn check_base_url(s: &str) -> (r: bool)
    ensures
        r == is_base_url(s@),
{
    if s.as_bytes().len() > MAX_BASE_URL_BYTES {
        return false;
    }
    let cs = chars_of(s);
    if cs.len() == 0 || cs[cs.len() - 1] != '/' {
        return false;
    }
    url_parses(s)
}

} // verus!
