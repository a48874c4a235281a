//! What the library needs to know of a URL, each obtained from the URL parser
//! as text.

use url::{Position, Url};
use vstd::prelude::*;

verus! {

/// The serialization of the URL that `raw` parses to, up to the end of its
/// path, after one trailing slash of the path, if any, has been removed.
/// `None` where `raw` does not parse as an absolute URL or cannot be a base.
pub uninterp spec fn link_prefix(raw: Seq<char>) -> Option<Seq<char>>;

/// The serialization of the URL that `raw` parses to, without its query and
/// its fragment. `None` where `raw` does not parse as an absolute URL.
pub uninterp spec fn link_without_params(raw: Seq<char>) -> Option<Seq<char>>;

/// The part of the serialization of the URL that `raw` parses to which
/// stands after the host and ends with the path. `None` where `raw` does not
/// parse as an absolute URL.
pub uninterp spec fn link_path(raw: Seq<char>) -> Option<Seq<char>>;

/// The host of the URL that `raw` parses to, as the URL parser writes it.
/// `None` where `raw` does not parse as an absolute URL or the URL has no
/// host.
pub uninterp spec fn link_host(raw: Seq<char>) -> Option<Seq<char>>;

/// Parses `url` with `url::Url::parse` and copies what `Url::host_str`
/// gives. A parse error, or a URL without a host, gives `None`. The contract
/// only names the result.
#[verifier::external_body]
pub(crate) fn host_of_link(url: &str) -> (host: Option<String>)
    ensures
        crate::text::text_of(host) == link_host(url@),
{
    let parsed = Url::parse(url).ok()?;
    parsed.host_str().map(|host| host.to_owned())
}

/// Parses `raw` with `url::Url::parse`, drops an empty last path segment with
/// `Url::path_segments_mut` and `PathSegmentsMut::pop_if_empty`, and copies
/// the serialization up to `Position::AfterPath`. A parse error, or a URL
/// that has no path segments to change, gives `None`. The contract only names
/// the result.
#[verifier::external_body]
pub(crate) fn normalized_link(raw: &str) -> (prefix: Option<String>)
    ensures
        crate::text::text_of(prefix) == link_prefix(raw@),
{
    let mut parsed = Url::parse(raw).ok()?;
    match parsed.path_segments_mut() {
        Ok(mut segments) => segments.pop_if_empty(),
        Err(_) => return None,
    };
    Some(parsed[..Position::AfterPath].to_owned())
}

/// Parses `url` with `url::Url::parse`, removes the query with
/// `Url::set_query(None)` and the fragment with `Url::set_fragment(None)`,
/// and copies `Url::as_str`. A parse error gives `None`. The contract only
/// names the result.
#[verifier::external_body]
pub(crate) fn stripped_link(url: &str) -> (clean: Option<String>)
    ensures
        crate::text::text_of(clean) == link_without_params(url@),
{
    let mut parsed = Url::parse(url).ok()?;
    parsed.set_query(None);
    parsed.set_fragment(None);
    Some(parsed.as_str().to_owned())
}

/// Parses `url` with `url::Url::parse` and copies the serialization from
/// `Position::AfterHost` to `Position::AfterPath`. A parse error gives
/// `None`. The contract only names the result.
#[verifier::external_body]
pub(crate) fn path_of_link(url: &str) -> (path: Option<String>)
    ensures
        crate::text::text_of(path) == link_path(url@),
{
    let parsed = Url::parse(url).ok()?;
    Some(parsed[Position::AfterHost..Position::AfterPath].to_owned())
}

} // verus!
