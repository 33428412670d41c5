//! The one call into the `url` crate: parsing a `/send` destination as an
//! absolute URL. The parsed URL's serialization is a pure function of the
//! input string, named here by `url_parse`.

use vstd::prelude::*;

verus! {

/// The serialization of `s` parsed as an absolute URL, or `None` where `s`
/// is not one. Names what `url::Url::parse` followed by serialization
/// returns; it depends on `s` alone.
pub uninterp spec fn url_parse(s: Seq<char>) -> Option<Seq<char>>;

/// Relies on `url::Url::parse` for deciding whether `s` is an absolute URL,
/// and on the crate's `From<Url> for String` for the parsed URL's
/// serialization.
#[verifier::external_body]
pub(crate) fn url_parse_normalized(s: &str) -> (r: Option<String>)
    ensures
        r is Some <==> url_parse(s@) is Some,
        r matches Some(u) ==> url_parse(s@) == Some(u@),
{
    match url::Url::parse(s) {
        Ok(u) => Some(String::from(u)),
        Err(_) => None,
    }
}

} // verus!
