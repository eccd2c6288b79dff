//! The normalized result record: one discovered media post, tagged with the
//! query that produced it and the collector it came from.

use vstd::prelude::*;

verus! {

/// One collected media post. The `tags` are the filter's tags as requested,
/// never tags read out of the remote record.
#[derive(Clone, Debug)]
pub struct EcstasyItem {
    /// Direct URL to the media file.
    pub source_url: String,
    /// The tag query that produced this item, copied from the request.
    pub tags: Vec<String>,
    /// Identifier of the collector that produced this item.
    pub source_id: String,
}

/// The mathematical shape of an item: each field as a sequence of characters.
pub struct EcstasyItemView {
    pub source_url: Seq<char>,
    pub tags: Seq<Seq<char>>,
    pub source_id: Seq<char>,
}

/// The views of a sequence of strings.
pub open spec fn strings_view(ts: Seq<String>) -> Seq<Seq<char>> {
    ts.map_values(|t: String| t@)
}

impl View for EcstasyItem {
    type V = EcstasyItemView;

    open spec fn view(&self) -> EcstasyItemView {
        EcstasyItemView {
            source_url: self.source_url@,
            tags: strings_view(self.tags@),
            source_id: self.source_id@,
        }
    }
}

/// The views of a sequence of items.
pub open spec fn items_view(items: Seq<EcstasyItem>) -> Seq<EcstasyItemView> {
    items.map_values(|it: EcstasyItem| it@)
}

/// Well-formedness of a collected item: the media URL is present. Every item
/// a collection run yields satisfies this.
pub open spec fn item_wf(it: EcstasyItemView) -> bool {
    it.source_url.len() > 0
}

impl EcstasyItem {
    /// Builds an item from its parts; the fields are exactly the arguments.
    pub fn new(source_url: String, tags: Vec<String>, source_id: String) -> (r: EcstasyItem)
        ensures
            r@.source_url == source_url@,
            r@.tags == strings_view(tags@),
            r@.source_id == source_id@,
    {
        EcstasyItem { source_url, tags, source_id }
    }
}

} // verus!
