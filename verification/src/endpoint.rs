//! The address of the server, parsed once when the transport is made.

use vstd::prelude::*;

verus! {

/// `url::Url`, a parsed address. Opaque here: the transport keeps it for
/// whoever opens the socket.
#[verifier::external_type_specification]
#[verifier::external_body]
pub struct ExUrl(url::Url);

/// What `url::Url::parse` makes of a text: the URL that it spells, or the
/// reason why it spells none.
pub uninterp spec fn parsed_url(text: Seq<char>) -> Result<url::Url, url::ParseError>;

/// Calls `url::Url::parse`. Trusted: the result depends on the text alone,
/// and is what `parsed_url` names.
#[verifier::external_body]
pub(crate) fn parse_url(text: &str) -> (r: Result<url::Url, url::ParseError>)
    ensures
        r == parsed_url(text@),
{
    url::Url::parse(text)
}

} // verus!
