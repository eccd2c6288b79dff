//! The shared pagination engine: the page-by-page fetch/decode/accumulate
//! loop of every numeric-paging adapter, as an explicit state machine.
//!
//! The embedding program performs each network fetch and hands the outcome
//! back as a `PageEvent`; every decision — how a page extends the collected
//! items, when collection ends, and what a transport failure destroys — is
//! made and verified here. A page body that does not decode is not an error:
//! it is absorbed as the normal end of results, so one drifting source
//! degrades to partial results instead of aborting the run.

use vstd::prelude::*;
use vstd::string::*;
use crate::collector::EcstasyCollector;
use crate::collectors::konachan::{
    decode_posts, lemma_posts_of_wf, posts_of, posts_view, KonachanPost, KonachanPostView,
};
use crate::error::EcstasyError;
use crate::item::{item_wf, items_view, strings_view, EcstasyItem, EcstasyItemView};
use crate::params::EcstasyFilter;
use crate::strutil::{join_plus, join_plus_spec};

verus! {

/// Where a collector's run stands.
#[derive(Clone, Copy, Debug, PartialEq, Eq, Structural)]
pub enum EngineStatus {
    /// The next page is still to be fetched.
    Fetching,
    /// Collection ended normally: end of results or page limit.
    Done,
    /// A transport failure ended collection; the run yields no items.
    Failed,
}

/// What one attempted page fetch produced.
pub enum PageEvent {
    /// The response body, read in full as text.
    Body(String),
    /// The request could not be issued or completed.
    TransportFailure,
}

/// The engine state of one collector's run: the items accumulated so far and
/// the number of the page to fetch next. Page numbering starts at 1.
pub struct PageState {
    pub items: Vec<EcstasyItem>,
    pub page: u64,
    pub status: EngineStatus,
}

/// The item one decoded post record normalizes to: its file URL, under the
/// requested tags and the collecting adapter's identifier.
pub open spec fn post_view_item(p: KonachanPostView, tags: Seq<Seq<char>>, sid: Seq<char>) -> EcstasyItemView {
    EcstasyItemView { source_url: p.file_url, tags: tags, source_id: sid }
}

/// The same, from an executable post record.
pub open spec fn post_item(p: KonachanPost, tags: Seq<Seq<char>>, sid: Seq<char>) -> EcstasyItemView {
    post_view_item(p@, tags, sid)
}

/// The decoded pages a decode result stands for.
pub open spec fn decoded_view(posts: Option<Vec<KonachanPost>>) -> Option<Seq<KonachanPostView>> {
    match posts {
        Some(ps) => Some(posts_view(ps@)),
        None => None,
    }
}

/// The items of a state after one decoded page is applied: drift (`None`)
/// and the empty page append nothing; a non-empty page appends one item per
/// record, carrying the given tags and collector identifier.
pub open spec fn apply_items_spec(
    items: Seq<EcstasyItemView>,
    posts: Option<Seq<KonachanPostView>>,
    tags: Seq<Seq<char>>,
    sid: Seq<char>,
) -> Seq<EcstasyItemView> {
    match posts {
        Some(ps) => if ps.len() > 0 {
            items + ps.map_values(|p: KonachanPostView| post_view_item(p, tags, sid))
        } else {
            items
        },
        None => items,
    }
}

/// Every item carries the given tags and collector identifier.
pub open spec fn all_items_tagged(
    items: Seq<EcstasyItemView>,
    tags: Seq<Seq<char>>,
    sid: Seq<char>,
) -> bool {
    forall|i: int|
        0 <= i < items.len() ==> (#[trigger] items[i]).tags == tags && items[i].source_id == sid
}

/// The state a collector's run starts from: nothing collected, page 1 ahead.
pub fn start_state() -> (r: PageState)
    ensures
        r.items@.len() == 0,
        r.page == 1,
        r.status == EngineStatus::Fetching,
{
    PageState { items: Vec::new(), page: 1, status: EngineStatus::Fetching }
}

/// The URL the engine fetches next: the adapter's page URL for the filter's
/// tags joined with `'+'` and the state's page number.
pub fn next_page_url<C: EcstasyCollector>(c: &C, filter: &EcstasyFilter, st: &PageState) -> (r:
    Result<String, EcstasyError>)
    requires
        st.status == EngineStatus::Fetching,
    ensures
        c.supports_paging() ==> (r matches Ok(u) && u@ == crate::collector::page_url_spec(
            c.spec_api_base(),
            c.spec_tags_argument(),
            c.spec_page_argument(),
            join_plus_spec(strings_view(filter.tags@)),
            st.page,
        )),
        !c.supports_paging() ==> r == Err::<String, EcstasyError>(
            EcstasyError::UnsupportedOperation,
        ),
{
    let q = join_plus(&filter.tags);
    c.api_by_page(q.as_str(), st.page)
}

/// Clones a list of strings; the views are unchanged.
fn clone_strings(ts: &Vec<String>) -> (r: Vec<String>)
    ensures
        r@ =~= ts@,
{
    let mut r: Vec<String> = Vec::new();
    let mut i: usize = 0;
    while i < ts.len()
        invariant
            i <= ts@.len(),
            r@ =~= ts@.take(i as int),
        decreases ts@.len() - i,
    {
        r.push(ts[i].clone());
        i += 1;
    }
    r
}

/// Applies one decoded page to the state. `None` is decode drift and `Some`
/// of an empty list is the end-of-results signal: both end collection
/// normally, whatever the page limit — no error, nothing appended. A
/// non-empty list appends one item per record, carrying the filter's
/// requested tags (never tags out of the records), and collection continues
/// only while the fetched page number is below the page limit; with a limit
/// of 1 — or 0, read as 1 — exactly one page is consumed.
pub fn apply_posts(
    filter: &EcstasyFilter,
    source_id: &str,
    st: PageState,
    posts: Option<Vec<KonachanPost>>,
) -> (r: PageState)
    requires
        st.status == EngineStatus::Fetching,
    ensures
        items_view(r.items@) =~= apply_items_spec(
            items_view(st.items@),
            decoded_view(posts),
            strings_view(filter.tags@),
            source_id@,
        ),
        (match posts {
            None => r.items@ == st.items@ && r.page == st.page && r.status == EngineStatus::Done,
            Some(ps) => if ps@.len() == 0 {
                r.items@ == st.items@ && r.page == st.page && r.status == EngineStatus::Done
            } else {
                items_view(r.items@) =~= items_view(st.items@) + ps@.map_values(
                    |p: KonachanPost| post_item(p, strings_view(filter.tags@), source_id@),
                ) && (st.page >= filter.pagelimit ==> r.page == st.page && r.status
                    == EngineStatus::Done) && (st.page < filter.pagelimit ==> r.page == st.page + 1
                    && r.status == EngineStatus::Fetching)
            },
        }),
{
    let ghost orig_items = st.items@;
    match posts {
        None => PageState { items: st.items, page: st.page, status: EngineStatus::Done },
        Some(ps) => {
            if ps.len() == 0 {
                PageState { items: st.items, page: st.page, status: EngineStatus::Done }
            } else {
                let ghost f = |p: KonachanPost| post_item(
                    p,
                    strings_view(filter.tags@),
                    source_id@,
                );
                let mut items = st.items;
                let mut j: usize = 0;
                while j < ps.len()
                    invariant
                        j <= ps@.len(),
                        items_view(items@) =~= items_view(orig_items) + ps@.take(
                            j as int,
                        ).map_values(f),
                        f == (|p: KonachanPost| post_item(
                            p,
                            strings_view(filter.tags@),
                            source_id@,
                        )),
                    decreases ps@.len() - j,
                {
                    let url = ps[j].file_url.clone();
                    let tags = clone_strings(&filter.tags);
                    let sid = String::from_str(source_id);
                    let it = EcstasyItem::new(url, tags, sid);
                    proof {
                        assert(it@ == f(ps@[j as int]));
                    }
                    let ghost before = items@;
                    items.push(it);
                    proof {
                        assert(items@ =~= before.push(it));
                        assert(items_view(items@) =~= items_view(before).push(it@));
                        assert(ps@.take(j + 1).map_values(f) =~= ps@.take(j as int).map_values(
                            f,
                        ).push(f(ps@[j as int])));
                        assert(items_view(items@) =~= items_view(orig_items) + ps@.take(
                            j + 1,
                        ).map_values(f));
                    }
                    j += 1;
                }
                proof {
                    assert(ps@.take(ps@.len() as int) =~= ps@);
                    assert(ps@.map_values(f) =~= posts_view(ps@).map_values(
                        |p: KonachanPostView| post_view_item(
                            p,
                            strings_view(filter.tags@),
                            source_id@,
                        ),
                    ));
                }
                if st.page >= filter.pagelimit {
                    PageState { items, page: st.page, status: EngineStatus::Done }
                } else {
                    PageState { items, page: st.page + 1, status: EngineStatus::Fetching }
                }
            }
        },
    }
}

/// Advances the engine by one fetched page. A transport failure fails the
/// run on the spot, keeping nothing new. A body decodes to exactly
/// `posts_of` of its text, and the state is fixed by it: drift or an empty
/// page ends the run with nothing appended, a non-empty page appends exactly
/// its records' items — carrying the filter's tags and this collector's
/// identifier, never tags out of the records — and fetching continues only
/// while the page limit allows it.
pub fn engine_step<C: EcstasyCollector>(
    c: &C,
    filter: &EcstasyFilter,
    st: PageState,
    ev: PageEvent,
) -> (r: PageState)
    requires
        st.status == EngineStatus::Fetching,
    ensures
        (ev matches PageEvent::TransportFailure ==> r.items@ == st.items@ && r.page == st.page
            && r.status == EngineStatus::Failed),
        (ev matches PageEvent::Body(b) ==> items_view(r.items@) =~= apply_items_spec(
            items_view(st.items@),
            posts_of(b@),
            strings_view(filter.tags@),
            c.spec_id(),
        ) && (match posts_of(b@) {
            None => r.page == st.page && r.status == EngineStatus::Done,
            Some(ps) => if ps.len() == 0 {
                r.page == st.page && r.status == EngineStatus::Done
            } else {
                (st.page >= filter.pagelimit ==> r.page == st.page && r.status
                    == EngineStatus::Done) && (st.page < filter.pagelimit ==> r.page == st.page + 1
                    && r.status == EngineStatus::Fetching)
            },
        })),
        (ev matches PageEvent::Body(_) ==> r.status != EngineStatus::Failed),
        items_view(r.items@).take(st.items@.len() as int) =~= items_view(st.items@),
        forall|i: int|
            st.items@.len() <= i < r.items@.len() ==> (#[trigger] items_view(r.items@)[i]).tags
                == strings_view(filter.tags@) && items_view(r.items@)[i].source_id == c.spec_id()
                && item_wf(items_view(r.items@)[i]),
        r.status == EngineStatus::Fetching ==> st.page < filter.pagelimit && r.page == st.page + 1,
        all_items_tagged(items_view(st.items@), strings_view(filter.tags@), c.spec_id())
            ==> all_items_tagged(items_view(r.items@), strings_view(filter.tags@), c.spec_id()),
{
    match ev {
        PageEvent::TransportFailure => PageState {
            items: st.items,
            page: st.page,
            status: EngineStatus::Failed,
        },
        PageEvent::Body(b) => {
            let posts = decode_posts(b.as_str());
            let ghost gposts = posts;
            let r = apply_posts(filter, c.id(), st, posts);
            proof {
                assert(posts_of(b@) == decoded_view(gposts));
                lemma_posts_of_wf(b@);
            }
            r
        },
    }
}

/// The items of a whole run over the given decoded pages, first page first:
/// `apply_items_spec` folded over the pages, as the engine folds it one
/// `engine_step` at a time.
pub open spec fn run_items(
    pages: Seq<Option<Seq<KonachanPostView>>>,
    tags: Seq<Seq<char>>,
    sid: Seq<char>,
) -> Seq<EcstasyItemView>
    decreases pages.len(),
{
    if pages.len() == 0 {
        Seq::empty()
    } else {
        apply_items_spec(run_items(pages.drop_last(), tags, sid), pages.last(), tags, sid)
    }
}

/// Law: over a whole run — any sequence of decoded pages, however long —
/// every collected item carries the requested tags and the collector's
/// identifier, never tags out of the decoded records.
pub proof fn lemma_run_items_tagged(
    pages: Seq<Option<Seq<KonachanPostView>>>,
    tags: Seq<Seq<char>>,
    sid: Seq<char>,
)
    ensures
        all_items_tagged(run_items(pages, tags, sid), tags, sid),
    decreases pages.len(),
{
    if pages.len() > 0 {
        lemma_run_items_tagged(pages.drop_last(), tags, sid);
        let prev = run_items(pages.drop_last(), tags, sid);
        let cur = run_items(pages, tags, sid);
        assert forall|i: int|
            0 <= i < cur.len() implies (#[trigger] cur[i]).tags == tags && cur[i].source_id
            == sid by {
            if i < prev.len() {
                assert(cur[i] == prev[i]);
            } else {
                let ps = pages.last()->Some_0;
                assert(cur[i] == ps.map_values(
                    |p: KonachanPostView| post_view_item(p, tags, sid),
                )[i - prev.len()]);
            }
        }
    }
}

/// Surfaces a finished run to the caller: the accumulated items of a normal
/// end, or the transport error of a failed one — a failed run yields none of
/// its items.
pub fn finish(st: PageState) -> (r: Result<Vec<EcstasyItem>, EcstasyError>)
    requires
        st.status != EngineStatus::Fetching,
    ensures
        st.status == EngineStatus::Done ==> (r matches Ok(v) && v@ == st.items@),
        st.status == EngineStatus::Failed ==> r == Err::<Vec<EcstasyItem>, EcstasyError>(
            EcstasyError::Transport,
        ),
{
    match st.status {
        EngineStatus::Done => Ok(st.items),
        _ => Err(EcstasyError::Transport),
    }
}

/// Folds one collector's outcome into the run's totals: a successful
/// collector appends its items, a failed one is recorded by identifier and
/// destroys nothing — items already accumulated from other collectors stay
/// exactly as they were.
pub fn record_source_result(
    total: &mut Vec<EcstasyItem>,
    failures: &mut Vec<String>,
    source_id: &str,
    res: Result<Vec<EcstasyItem>, EcstasyError>,
) -> (e: Option<EcstasyError>)
    ensures
        (res matches Ok(v) ==> final(total)@ == old(total)@ + v@ && final(failures)@ == old(
            failures,
        )@ && e is None),
        (res matches Err(err) ==> final(total)@ == old(total)@ && strings_view(final(failures)@)
            =~= strings_view(old(failures)@).push(source_id@) && e == Some(err)),
{
    match res {
        Ok(mut v) => {
            total.append(&mut v);
            None
        },
        Err(err) => {
            failures.push(String::from_str(source_id));
            Some(err)
        },
    }
}

} // verus!
