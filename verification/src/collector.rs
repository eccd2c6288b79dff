//! The uniform contract every source adapter satisfies, and the shared page
//! URL builder for adapters whose API pages by a numeric parameter.
//!
//! Network transport is not part of this contract: an adapter exposes its
//! endpoint shape here, and the pagination engine in `engine` consumes the
//! fetched page bodies that the embedding program hands back.

use vstd::prelude::*;
use vstd::string::*;
use crate::error::EcstasyError;
use crate::strutil::dec_rep;

verus! {

/// The page URL a numeric-paging adapter expects: the base endpoint followed
/// by its tag and page query parameters.
pub open spec fn page_url_spec(
    base: Seq<char>,
    tags_arg: Seq<char>,
    page_arg: Seq<char>,
    query: Seq<char>,
    page: u64,
) -> Seq<char> {
    base + seq!['&'] + tags_arg + seq!['='] + query + seq!['&'] + page_arg + seq!['=']
        + dec_rep(page as nat)
}

/// The contract a source adapter satisfies so that the engine can drive it
/// generically. An adapter whose source has no numeric paging model declares
/// so through `supports_paging`, and its paging operations then fail with
/// `UnsupportedOperation` instead of returning a wrong value.
pub trait EcstasyCollector {
    /// The stable machine key, in spec form.
    spec fn spec_id(&self) -> Seq<char>;

    /// The display name, in spec form.
    spec fn spec_name(&self) -> Seq<char>;

    /// The base listing endpoint, in spec form.
    spec fn spec_api_base(&self) -> Seq<char>;

    /// The public site root, in spec form.
    spec fn spec_site_base(&self) -> Seq<char>;

    /// Whether this adapter's API pages by a numeric parameter.
    spec fn supports_paging(&self) -> bool;

    /// The tag query-parameter name, meaningful only under `supports_paging`.
    spec fn spec_tags_argument(&self) -> Seq<char>;

    /// The page query-parameter name, meaningful only under `supports_paging`.
    spec fn spec_page_argument(&self) -> Seq<char>;

    /// Stable key for registry lookup and item tagging.
    fn id(&self) -> (r: &'static str)
        ensures
            r@ == self.spec_id(),
    ;

    /// Human-readable display name.
    fn name(&self) -> (r: &'static str)
        ensures
            r@ == self.spec_name(),
    ;

    /// The base listing endpoint, fixed query parameters included.
    fn api_base(&self) -> (r: &'static str)
        ensures
            r@ == self.spec_api_base(),
    ;

    /// The public site root, for user-facing links.
    fn site_base(&self) -> (r: &'static str)
        ensures
            r@ == self.spec_site_base(),
    ;

    /// The query-parameter name for tag values, or `UnsupportedOperation`
    /// where the source has no tag query.
    fn tags_argument(&self) -> (r: Result<&'static str, EcstasyError>)
        ensures
            self.supports_paging() ==> (r matches Ok(s) && s@ == self.spec_tags_argument()),
            !self.supports_paging() ==> r == Err::<&'static str, EcstasyError>(
                EcstasyError::UnsupportedOperation,
            ),
    ;

    /// The query-parameter name for page values, or `UnsupportedOperation`
    /// where the source has no numeric paging.
    fn page_argument(&self) -> (r: Result<&'static str, EcstasyError>)
        ensures
            self.supports_paging() ==> (r matches Ok(s) && s@ == self.spec_page_argument()),
            !self.supports_paging() ==> r == Err::<&'static str, EcstasyError>(
                EcstasyError::UnsupportedOperation,
            ),
    ;

    /// Composes the fetchable URL of one page from the joined query and the
    /// page number, or `UnsupportedOperation` where the source has no numeric
    /// paging.
    fn api_by_page(&self, query: &str, page: u64) -> (r: Result<String, EcstasyError>)
        ensures
            self.supports_paging() ==> (r matches Ok(u) && u@ == page_url_spec(
                self.spec_api_base(),
                self.spec_tags_argument(),
                self.spec_page_argument(),
                query@,
                page,
            )),
            !self.supports_paging() ==> r == Err::<String, EcstasyError>(
                EcstasyError::UnsupportedOperation,
            ),
    ;
}

/// The shared page URL builder: base endpoint, then the tag parameter with
/// the joined query, then the page parameter with the page number.
pub fn build_page_url(base: &str, tags_arg: &str, page_arg: &str, query: &str, page: u64) -> (r:
    String)
    ensures
        r@ == page_url_spec(base@, tags_arg@, page_arg@, query@, page),
{
    let mut u = String::from_str(base);
    u.append("&");
    u.append(tags_arg);
    u.append("=");
    u.append(query);
    u.append("&");
    u.append(page_arg);
    u.append("=");
    let p = crate::strutil::u64_to_string(page);
    u.append(p.as_str());
    proof {
        reveal_strlit("&");
        reveal_strlit("=");
        assert("&"@ =~= seq!['&']);
        assert("="@ =~= seq!['=']);
    }
    u
}

} // verus!
