//! The booru-style adapter: a tag-indexed JSON API paged by a numeric
//! parameter. Its pages decode to arrays of post records, and the shared
//! pagination engine drives it through the `EcstasyCollector` contract.

use vstd::prelude::*;
use crate::collector::{build_page_url, EcstasyCollector};
use crate::error::EcstasyError;
use crate::jsonvalue::{as_array, as_text, get_member, json_elements, json_member, json_parsed,
    json_text, parse_json};

verus! {

/// The adapter for the Konachan listing API.
#[derive(Clone, Debug)]
pub struct KonachanCollector;

impl Default for KonachanCollector {
    fn default() -> (r: Self)
        ensures
            r == KonachanCollector,
    {
        KonachanCollector
    }
}

impl KonachanCollector {
    /// Builds the adapter; it carries no instance state.
    pub fn new() -> (r: Self)
        ensures
            r == KonachanCollector,
    {
        Self::default()
    }

    /// The adapter behind the uniform collector interface.
    pub fn boxed() -> (r: Box<dyn EcstasyCollector>) {
        Box::new(Self::new())
    }
}

impl EcstasyCollector for KonachanCollector {
    open spec fn spec_id(&self) -> Seq<char> {
        "konachan"@
    }

    open spec fn spec_name(&self) -> Seq<char> {
        "Konachan"@
    }

    open spec fn spec_api_base(&self) -> Seq<char> {
        "https://konachan.com/post.json?limit=100"@
    }

    open spec fn spec_site_base(&self) -> Seq<char> {
        "https://konachan.com"@
    }

    open spec fn supports_paging(&self) -> bool {
        true
    }

    open spec fn spec_tags_argument(&self) -> Seq<char> {
        "tags"@
    }

    open spec fn spec_page_argument(&self) -> Seq<char> {
        "page"@
    }

    fn id(&self) -> (r: &'static str)
        ensures
            r@ == self.spec_id(),
    {
        "konachan"
    }

    fn name(&self) -> (r: &'static str)
        ensures
            r@ == self.spec_name(),
    {
        "Konachan"
    }

    fn api_base(&self) -> (r: &'static str)
        ensures
            r@ == self.spec_api_base(),
    {
        "https://konachan.com/post.json?limit=100"
    }

    fn site_base(&self) -> (r: &'static str)
        ensures
            r@ == self.spec_site_base(),
    {
        "https://konachan.com"
    }

    fn tags_argument(&self) -> (r: Result<&'static str, EcstasyError>)
        ensures
            self.supports_paging() ==> (r matches Ok(s) && s@ == self.spec_tags_argument()),
            !self.supports_paging() ==> r == Err::<&'static str, EcstasyError>(
                EcstasyError::UnsupportedOperation,
            ),
    {
        Ok("tags")
    }

    fn page_argument(&self) -> (r: Result<&'static str, EcstasyError>)
        ensures
            self.supports_paging() ==> (r matches Ok(s) && s@ == self.spec_page_argument()),
            !self.supports_paging() ==> r == Err::<&'static str, EcstasyError>(
                EcstasyError::UnsupportedOperation,
            ),
    {
        Ok("page")
    }

    fn api_by_page(&self, query: &str, page: u64) -> (r: Result<String, EcstasyError>)
        ensures
            self.supports_paging() ==> (r matches Ok(u) && u@ == crate::collector::page_url_spec(
                self.spec_api_base(),
                self.spec_tags_argument(),
                self.spec_page_argument(),
                query@,
                page,
            )),
            !self.supports_paging() ==> r == Err::<String, EcstasyError>(
                EcstasyError::UnsupportedOperation,
            ),
    {
        Ok(build_page_url(self.api_base(), "tags", "page", query, page))
    }
}

/// One post record of a Konachan listing page.
#[derive(Clone, Debug)]
pub struct KonachanPost {
    /// Direct URL to the media file.
    pub file_url: String,
    /// The tags the remote record carries; not copied into collected items.
    pub tags: String,
    /// Checksum of the media file as the remote reports it.
    pub md5: String,
}

/// The mathematical shape of a post record: each field as a sequence of
/// characters.
pub struct KonachanPostView {
    pub file_url: Seq<char>,
    pub tags: Seq<char>,
    pub md5: Seq<char>,
}

impl View for KonachanPost {
    type V = KonachanPostView;

    open spec fn view(&self) -> KonachanPostView {
        KonachanPostView { file_url: self.file_url@, tags: self.tags@, md5: self.md5@ }
    }
}

/// The views of a sequence of post records.
pub open spec fn posts_view(ps: Seq<KonachanPost>) -> Seq<KonachanPostView> {
    ps.map_values(|p: KonachanPost| p@)
}

/// The text a JSON value holds at a key, where it is an object whose member
/// at that key is a string.
pub open spec fn member_text(v: serde_json::Value, key: Seq<char>) -> Option<Seq<char>> {
    match json_member(v, key) {
        Some(m) => json_text(m),
        None => None,
    }
}

/// The post record one JSON array element decodes to: an object with string
/// members `file_url`, `tags` and `md5`, the `file_url` non-empty — or
/// nothing, where the element does not have that shape.
pub open spec fn record_of(v: serde_json::Value) -> Option<KonachanPostView> {
    if member_text(v, "file_url"@) is Some && member_text(v, "tags"@) is Some && member_text(
        v,
        "md5"@,
    ) is Some && member_text(v, "file_url"@)->Some_0.len() > 0 {
        Some(
            KonachanPostView {
                file_url: member_text(v, "file_url"@)->Some_0,
                tags: member_text(v, "tags"@)->Some_0,
                md5: member_text(v, "md5"@)->Some_0,
            },
        )
    } else {
        None
    }
}

/// What a page body decodes to: the body parses as a JSON array and every
/// element decodes to a record — or nothing (decode drift), which the engine
/// absorbs as the end of results.
pub open spec fn posts_of(body: Seq<char>) -> Option<Seq<KonachanPostView>> {
    match json_parsed(body) {
        Some(v) => match json_elements(v) {
            Some(es) => if forall|i: int|
                0 <= i < es.len() ==> (#[trigger] record_of(es[i])) is Some {
                Some(Seq::new(es.len(), |i: int| record_of(es[i])->Some_0))
            } else {
                None
            },
            None => None,
        },
        None => None,
    }
}

/// Law: every record a page decodes to carries a media URL — `posts_of`
/// admits no record with an empty `file_url`.
pub proof fn lemma_posts_of_wf(body: Seq<char>)
    ensures
        posts_of(body) matches Some(ps) ==> forall|i: int|
            0 <= i < ps.len() ==> (#[trigger] ps[i]).file_url.len() > 0,
{
    if posts_of(body) is Some {
        let ps = posts_of(body)->Some_0;
        let es = json_elements(json_parsed(body)->Some_0)->Some_0;
        assert forall|i: int| 0 <= i < ps.len() implies (#[trigger] ps[i]).file_url.len() > 0 by {
            assert(ps[i] == record_of(es[i])->Some_0);
            assert(record_of(es[i]) is Some);
        }
    }
}

/// Reads one string member out of a JSON object value.
fn member_string(v: &serde_json::Value, key: &str) -> (r: Option<String>)
    ensures
        match r {
            Some(s) => member_text(*v, key@) == Some(s@),
            None => member_text(*v, key@) is None,
        },
{
    match get_member(v, key) {
        Some(m) => as_text(m),
        None => None,
    }
}

/// Decodes a page body to exactly the records `posts_of` gives it: a JSON
/// array of objects with string members `file_url`, `tags` and `md5`, the
/// `file_url` non-empty. `None` means decode drift.
pub fn decode_posts(body: &str) -> (r: Option<Vec<KonachanPost>>)
    ensures
        match r {
            Some(ps) => posts_of(body@) == Some(posts_view(ps@)),
            None => posts_of(body@) is None,
        },
{
    let parsed = parse_json(body);
    let v = match parsed {
        Some(v) => v,
        None => {
            return None;
        },
    };
    let arr = match as_array(&v) {
        Some(a) => a,
        None => {
            return None;
        },
    };
    let ghost es = arr@;
    let mut out: Vec<KonachanPost> = Vec::new();
    let mut i: usize = 0;
    while i < arr.len()
        invariant
            i <= arr.len(),
            es == arr@,
            json_parsed(body@) == Some(v),
            json_elements(v) == Some(es),
            out@.len() == i,
            forall|k: int|
                0 <= k < i ==> (#[trigger] record_of(es[k])) is Some && out@[k]@ == record_of(
                    es[k],
                )->Some_0,
        decreases arr.len() - i,
    {
        let e = &arr[i];
        let file_url = match member_string(e, "file_url") {
            Some(s) => s,
            None => {
                assert(record_of(es[i as int]) is None);
                return None;
            },
        };
        if file_url.as_str().is_empty() {
            assert(record_of(es[i as int]) is None);
            return None;
        }
        let tags = match member_string(e, "tags") {
            Some(s) => s,
            None => {
                assert(record_of(es[i as int]) is None);
                return None;
            },
        };
        let md5 = match member_string(e, "md5") {
            Some(s) => s,
            None => {
                assert(record_of(es[i as int]) is None);
                return None;
            },
        };
        out.push(KonachanPost { file_url, tags, md5 });
        i += 1;
    }
    proof {
        assert(posts_view(out@) =~= Seq::new(es.len(), |k: int| record_of(es[k])->Some_0));
    }
    Some(out)
}

} // verus!
