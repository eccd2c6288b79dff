//! The user-supplied query criteria of one run: the filter every collector
//! shares read-only, and the surrounding run parameters.

use vstd::prelude::*;

verus! {

/// The query criteria one run hands, read-only, to every collector.
#[derive(Clone, Debug)]
pub struct EcstasyFilter {
    /// Tag query terms for tag-indexed sources.
    pub tags: Vec<String>,
    /// Subreddit names for listing-style sources.
    pub subreddits: Vec<String>,
    /// Upper bound on pages fetched per source; the maximum value means
    /// effectively unbounded.
    pub pagelimit: u64,
}

impl EcstasyFilter {
    /// True iff the filter restricts nothing: both `tags` and `subreddits`
    /// are empty.
    pub fn is_empty(&self) -> (r: bool)
        ensures
            r == (self.tags@.len() == 0 && self.subreddits@.len() == 0),
    {
        self.subreddits.is_empty() && self.tags.is_empty()
    }
}

/// The parameters of one run, as the argument-parsing collaborator delivers
/// them.
#[derive(Clone, Debug)]
pub struct EcstasyParams {
    /// Display debug logs.
    pub verbose: bool,
    /// Go through collection without downloading anything.
    pub debug: bool,
    /// Requested source identifiers, or the sentinel `"all"`.
    pub sources: Vec<String>,
    /// The filter shared by every collector of the run.
    pub ecstasy_filter: EcstasyFilter,
    /// Override allowing a run whose filter restricts nothing.
    pub insane: bool,
}

impl EcstasyParams {
    /// True iff collection may start: an unrestricted filter is refused
    /// unless the override is set, before any network activity occurs.
    pub fn allows_collection(&self) -> (r: bool)
        ensures
            r == (self.insane || !(self.ecstasy_filter.tags@.len() == 0
                && self.ecstasy_filter.subreddits@.len() == 0)),
    {
        self.insane || !self.ecstasy_filter.is_empty()
    }
}

} // verus!
