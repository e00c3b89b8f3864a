//! The bridging operation hosted content may invoke: navigate to a URL.
//!
//! Hosted page code hands the shell one string. The string is parsed as an
//! absolute URL; a well-formed request yields the normalized serialization to
//! load, and a malformed one is silently discarded — no error ever surfaces
//! back to the page. The parse itself is the `url` crate's; everything that
//! decides on its outcome is verified here.

use vstd::prelude::*;

verus! {

/// The outcome of `url::Url::parse` on one request string: the normalized
/// serialization of the URL when the string is well-formed, and nothing
/// otherwise. The outcome depends on the characters of the request alone.
pub uninterp spec fn parsed_url(request: Seq<char>) -> Option<Seq<char>>;

/// Relies on `url::Url::parse`: a deterministic parser from a string to an
/// absolute URL, and on `String::from(Url)`, which yields the parsed URL's
/// normalized serialization.
#[verifier::external_body]
fn parse_url(request: &str) -> (r: Option<String>)
    ensures
        r is Some <==> parsed_url(request@) is Some,
        r matches Some(u) ==> u@ == parsed_url(request@)->0,
{
    match url::Url::parse(request) {
        Ok(u) => Some(String::from(u)),
        Err(_) => None,
    }
}

/// What the host does with one navigation request: load a URL, or ignore the
/// request.
#[derive(PartialEq, Eq, Debug)]
pub enum NavigationAction {
    /// Load this normalized URL into the window.
    Load(String),
    /// The request was malformed; drop it without surfacing an error.
    Ignore,
}

/// Decide on a parse outcome: a well-formed request is loaded exactly as the
/// parser serialized it, and a malformed one is ignored — never the other
/// way around.
pub fn action_for_parse(parsed: Option<String>) -> (r: NavigationAction)
    ensures
        parsed matches Some(u) ==> r == NavigationAction::Load(u),
        parsed is None ==> r == NavigationAction::Ignore,
{
    match parsed {
        Some(u) => NavigationAction::Load(u),
        None => NavigationAction::Ignore,
    }
}

/// Handle one navigation request from hosted content: parse it, load the
/// normalized URL if it is well-formed, and silently ignore it otherwise.
pub fn plan_navigation(request: &str) -> (r: NavigationAction)
    ensures
        parsed_url(request@) matches Some(u) ==> r matches NavigationAction::Load(l) && l@ == u,
        parsed_url(request@) is None ==> r == NavigationAction::Ignore,
{
    action_for_parse(parse_url(request))
}

} // verus!
