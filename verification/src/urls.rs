use vstd::prelude::*;

verus! {

/// The parsed endpoint type of the url crate, carried opaquely: the library
/// composes and validates endpoint strings, and the transport reads the
/// parsed form.
#[verifier::external_type_specification]
#[verifier::external_body]
pub struct ExUrl(url::Url);

/// Whether the url crate accepts `s` as an absolute URL. Parsing is a
/// function of the input string alone.
pub uninterp spec fn url_parse_ok(s: Seq<char>) -> bool;

/// Relies on url::Url::parse: success depends only on the input string.
#[verifier::external_body]
pub fn parse_url(s: &str) -> (r: Option<url::Url>)
    ensures
        r is Some <==> url_parse_ok(s@),
{
    url::Url::parse(s).ok()
}

/// Relies on url::Url::set_query: the URL with its query part replaced by
/// the given string (which the crate trims of tab and newline characters and
/// percent-encodes where the query grammar asks for it). The url crate does
/// not support URLs whose serialization reaches four gigabytes and aborts on
/// them; the endpoints this library composes stay far below that bound.
#[verifier::external_body]
pub fn url_with_query(u: url::Url, query: &str) -> url::Url {
    let mut u2 = u;
    u2.set_query(Some(query));
    u2
}

/// Relies on the derived Clone of url::Url: a field-for-field copy.
pub assume_specification[ <url::Url as Clone>::clone ](u: &url::Url) -> (r: url::Url)
    ensures
        r == *u,
;

} // verus!
