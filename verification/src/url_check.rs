//! URL prefix validation through the `url` crate.

use vstd::prelude::*;

verus! {

/// The outcome of parsing a string as an absolute URL: `None` when it does
/// not parse, otherwise the parser's normalized serialization.
pub uninterp spec fn parse_url_spec(s: Seq<char>) -> Option<Seq<char>>;

/// Relies on `url::Url::parse`: whether a string parses as an absolute URL,
/// and the normalized serialization when it does, depend on the characters
/// alone.
#[verifier::external_body]
pub(crate) fn parse_url(s: &str) -> (r: Option<String>)
    ensures
        r is Some <==> parse_url_spec(s@) is Some,
        r matches Some(u) ==> parse_url_spec(s@) == Some::<Seq<char>>(u@),
{
    match url::Url::parse(s) {
        Ok(u) => Some(String::from(u)),
        Err(_) => None,
    }
}

} // verus!
