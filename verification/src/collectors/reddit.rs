//! The listing-style adapter: subreddit hot listings, one request per
//! subreddit, with no numeric paging model. Its paging operations signal
//! `UnsupportedOperation` instead of returning a wrong value, and its walk
//! over the requested subreddits is an explicit state machine.
//!
//! Normalizing listing responses into items is not implemented: a completed
//! walk yields no items, and a transport failure fails the walk.

use vstd::prelude::*;
use vstd::string::*;
use crate::collector::EcstasyCollector;
use crate::engine::{EngineStatus, PageEvent};
use crate::error::EcstasyError;
use crate::item::EcstasyItem;
use crate::params::EcstasyFilter;

verus! {

/// The adapter for subreddit hot listings.
#[derive(Clone, Debug)]
pub struct RedditCollector;

impl Default for RedditCollector {
    fn default() -> (r: Self)
        ensures
            r == RedditCollector,
    {
        RedditCollector
    }
}

impl RedditCollector {
    /// Builds the adapter; it carries no instance state.
    pub fn new() -> (r: Self)
        ensures
            r == RedditCollector,
    {
        Self::default()
    }

    /// The adapter behind the uniform collector interface.
    pub fn boxed() -> (r: Box<dyn EcstasyCollector>) {
        Box::new(Self::new())
    }

    /// The hot-listing URL of one subreddit.
    pub fn subreddit_url(&self, subreddit: &str) -> (r: String)
        ensures
            r@ == self.spec_api_base() + "/r/"@ + subreddit@ + "/hot.json"@,
    {
        let mut u = String::from_str(self.api_base());
        u.append("/r/");
        u.append(subreddit);
        u.append("/hot.json");
        u
    }
}

impl EcstasyCollector for RedditCollector {
    open spec fn spec_id(&self) -> Seq<char> {
        "reddit"@
    }

    open spec fn spec_name(&self) -> Seq<char> {
        "Reddit"@
    }

    open spec fn spec_api_base(&self) -> Seq<char> {
        "https://reddit.com"@
    }

    open spec fn spec_site_base(&self) -> Seq<char> {
        "https://reddit.com"@
    }

    open spec fn supports_paging(&self) -> bool {
        false
    }

    open spec fn spec_tags_argument(&self) -> Seq<char> {
        Seq::empty()
    }

    open spec fn spec_page_argument(&self) -> Seq<char> {
        Seq::empty()
    }

    fn id(&self) -> (r: &'static str)
        ensures
            r@ == self.spec_id(),
    {
        "reddit"
    }

    fn name(&self) -> (r: &'static str)
        ensures
            r@ == self.spec_name(),
    {
        "Reddit"
    }

    fn api_base(&self) -> (r: &'static str)
        ensures
            r@ == self.spec_api_base(),
    {
        "https://reddit.com"
    }

    fn site_base(&self) -> (r: &'static str)
        ensures
            r@ == self.spec_site_base(),
    {
        "https://reddit.com"
    }

    fn tags_argument(&self) -> (r: Result<&'static str, EcstasyError>)
        ensures
            self.supports_paging() ==> (r matches Ok(s) && s@ == self.spec_tags_argument()),
            !self.supports_paging() ==> r == Err::<&'static str, EcstasyError>(
                EcstasyError::UnsupportedOperation,
            ),
    {
        Err(EcstasyError::UnsupportedOperation)
    }

    fn page_argument(&self) -> (r: Result<&'static str, EcstasyError>)
        ensures
            self.supports_paging() ==> (r matches Ok(s) && s@ == self.spec_page_argument()),
            !self.supports_paging() ==> r == Err::<&'static str, EcstasyError>(
                EcstasyError::UnsupportedOperation,
            ),
    {
        Err(EcstasyError::UnsupportedOperation)
    }

    fn api_by_page(&self, query: &str, page: u64) -> (r: Result<String, EcstasyError>)
        ensures
            self.supports_paging() ==> (r matches Ok(u) && u@ == crate::collector::page_url_spec(
                self.spec_api_base(),
                self.spec_tags_argument(),
                self.spec_page_argument(),
                query@,
                page,
            )),
            !self.supports_paging() ==> r == Err::<String, EcstasyError>(
                EcstasyError::UnsupportedOperation,
            ),
    {
        Err(EcstasyError::UnsupportedOperation)
    }
}

/// The walk state of one run over the filter's subreddits: the index of the
/// subreddit to fetch next.
pub struct RedditState {
    pub idx: usize,
    pub status: EngineStatus,
}

/// The state a subreddit walk starts from: the first subreddit ahead, or
/// already done where the filter names none.
pub fn reddit_start(filter: &EcstasyFilter) -> (r: RedditState)
    ensures
        r.idx == 0,
        filter.subreddits@.len() == 0 ==> r.status == EngineStatus::Done,
        filter.subreddits@.len() > 0 ==> r.status == EngineStatus::Fetching,
{
    if filter.subreddits.is_empty() {
        RedditState { idx: 0, status: EngineStatus::Done }
    } else {
        RedditState { idx: 0, status: EngineStatus::Fetching }
    }
}

/// Advances the walk by one fetched listing: a transport failure fails the
/// walk on the spot, a body moves it to the next subreddit, done after the
/// last one.
pub fn reddit_step(filter: &EcstasyFilter, st: RedditState, ev: PageEvent) -> (r: RedditState)
    requires
        st.status == EngineStatus::Fetching,
        st.idx < filter.subreddits@.len(),
    ensures
        (ev matches PageEvent::TransportFailure ==> r.idx == st.idx && r.status
            == EngineStatus::Failed),
        (ev matches PageEvent::Body(_) ==> r.idx == st.idx + 1 && (r.status == EngineStatus::Done
            <==> st.idx + 1 == filter.subreddits@.len()) && (r.status == EngineStatus::Fetching
            <==> st.idx + 1 < filter.subreddits@.len())),
{
    match ev {
        PageEvent::TransportFailure => RedditState { idx: st.idx, status: EngineStatus::Failed },
        PageEvent::Body(_) => {
            let len = filter.subreddits.len();
            let next = st.idx + 1;
            if next == len {
                RedditState { idx: next, status: EngineStatus::Done }
            } else {
                RedditState { idx: next, status: EngineStatus::Fetching }
            }
        },
    }
}

/// Surfaces a finished walk: no items on a normal end — listing responses
/// are not normalized into items — or the transport error of a failed one.
pub fn reddit_finish(st: RedditState) -> (r: Result<Vec<EcstasyItem>, EcstasyError>)
    requires
        st.status != EngineStatus::Fetching,
    ensures
        st.status == EngineStatus::Done ==> (r matches Ok(v) && v@.len() == 0),
        st.status == EngineStatus::Failed ==> r == Err::<Vec<EcstasyItem>, EcstasyError>(
            EcstasyError::Transport,
        ),
{
    match st.status {
        EngineStatus::Done => Ok(Vec::new()),
        _ => Err(EcstasyError::Transport),
    }
}

} // verus!
