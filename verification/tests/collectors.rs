use ecstasy::collector::{build_page_url, EcstasyCollector};
use ecstasy::collectors::konachan::KonachanCollector;
use ecstasy::collectors::reddit::{
    reddit_finish, reddit_start, reddit_step, RedditCollector, RedditState,
};
use ecstasy::engine::{EngineStatus, PageEvent};
use ecstasy::error::EcstasyError;
use ecstasy::item::EcstasyItem;
use ecstasy::params::{EcstasyFilter, EcstasyParams};
use ecstasy::strutil::{join_plus, str_eq_ignore_case, u64_to_string};

fn subreddit_filter(subs: Vec<&str>) -> EcstasyFilter {
    EcstasyFilter {
        tags: Vec::new(),
        subreddits: subs.into_iter().map(|s| s.to_string()).collect(),
        pagelimit: u64::MAX,
    }
}

#[test]
fn konachan_static_identity() {
    let c = KonachanCollector::new();
    assert_eq!(c.id(), "konachan");
    assert_eq!(c.name(), "Konachan");
    assert_eq!(c.api_base(), "https://konachan.com/post.json?limit=100");
    assert_eq!(c.site_base(), "https://konachan.com");
    assert_eq!(c.tags_argument(), Ok("tags"));
    assert_eq!(c.page_argument(), Ok("page"));
}

#[test]
fn konachan_api_by_page_composes_the_url() {
    let c = KonachanCollector::new();
    let url = c.api_by_page("cat+dog", 7).unwrap();
    assert_eq!(
        url,
        "https://konachan.com/post.json?limit=100&tags=cat+dog&page=7"
    );
}

#[test]
fn boxed_collectors_answer_through_the_interface() {
    let k = KonachanCollector::boxed();
    assert_eq!(k.id(), "konachan");
    let r = RedditCollector::boxed();
    assert_eq!(r.id(), "reddit");
}

#[test]
fn reddit_has_no_numeric_paging() {
    let c = RedditCollector::new();
    assert_eq!(c.tags_argument(), Err(EcstasyError::UnsupportedOperation));
    assert_eq!(c.page_argument(), Err(EcstasyError::UnsupportedOperation));
    assert_eq!(
        c.api_by_page("anything", 1),
        Err(EcstasyError::UnsupportedOperation)
    );
}

#[test]
fn reddit_subreddit_url_composes_the_hot_listing() {
    let c = RedditCollector::new();
    assert_eq!(
        c.subreddit_url("pics"),
        "https://reddit.com/r/pics/hot.json"
    );
}

#[test]
fn reddit_walk_visits_each_subreddit_and_collects_nothing() {
    let f = subreddit_filter(vec!["pics", "aww"]);
    let st = reddit_start(&f);
    assert_eq!(st.status, EngineStatus::Fetching);
    assert_eq!(st.idx, 0);
    let st = reddit_step(&f, st, PageEvent::Body(String::from("{}")));
    assert_eq!(st.status, EngineStatus::Fetching);
    assert_eq!(st.idx, 1);
    let st = reddit_step(&f, st, PageEvent::Body(String::from("{}")));
    assert_eq!(st.status, EngineStatus::Done);
    let items = reddit_finish(st).unwrap();
    assert!(items.is_empty());
}

#[test]
fn reddit_walk_fails_on_transport() {
    let f = subreddit_filter(vec!["pics"]);
    let st = reddit_start(&f);
    let st = reddit_step(&f, st, PageEvent::TransportFailure);
    assert_eq!(st.status, EngineStatus::Failed);
    assert_eq!(reddit_finish(st).err(), Some(EcstasyError::Transport));
}

#[test]
fn reddit_walk_with_no_subreddits_is_already_done() {
    let f = subreddit_filter(vec![]);
    let st = reddit_start(&f);
    assert_eq!(st.status, EngineStatus::Done);
    assert!(reddit_finish(st).unwrap().is_empty());
}

#[test]
fn reddit_finish_of_a_failed_state_is_transport() {
    let st = RedditState { idx: 0, status: EngineStatus::Failed };
    assert_eq!(reddit_finish(st).err(), Some(EcstasyError::Transport));
}

#[test]
fn item_new_keeps_its_fields() {
    let it = EcstasyItem::new(
        "https://x/a.png".to_string(),
        vec!["cat".to_string()],
        "konachan".to_string(),
    );
    assert_eq!(it.source_url, "https://x/a.png");
    assert_eq!(it.tags, vec!["cat".to_string()]);
    assert_eq!(it.source_id, "konachan");
}

#[test]
fn filter_is_empty_iff_both_lists_are_empty() {
    let f = EcstasyFilter { tags: vec![], subreddits: vec![], pagelimit: 1 };
    assert!(f.is_empty());
    let f = EcstasyFilter { tags: vec!["cat".to_string()], subreddits: vec![], pagelimit: 1 };
    assert!(!f.is_empty());
    let f = EcstasyFilter { tags: vec![], subreddits: vec!["pics".to_string()], pagelimit: 1 };
    assert!(!f.is_empty());
    let f = EcstasyFilter {
        tags: vec!["cat".to_string()],
        subreddits: vec!["pics".to_string()],
        pagelimit: 1,
    };
    assert!(!f.is_empty());
}

#[test]
fn an_unrestricted_run_needs_the_override() {
    let empty = EcstasyFilter { tags: vec![], subreddits: vec![], pagelimit: 1 };
    let p = EcstasyParams {
        verbose: false,
        debug: false,
        sources: vec!["all".to_string()],
        ecstasy_filter: empty.clone(),
        insane: false,
    };
    assert!(!p.allows_collection());
    let p = EcstasyParams { insane: true, ecstasy_filter: empty, ..p };
    assert!(p.allows_collection());
}

#[test]
fn error_labels() {
    assert_eq!(EcstasyError::Transport.label(), "transport failure");
    assert_eq!(
        EcstasyError::UnsupportedOperation.label(),
        "unsupported operation"
    );
    assert_eq!(EcstasyError::UnknownSource.label(), "unknown source");
}

#[test]
fn u64_to_string_renders_decimal() {
    assert_eq!(u64_to_string(0), "0");
    assert_eq!(u64_to_string(7), "7");
    assert_eq!(u64_to_string(1234567890), "1234567890");
    assert_eq!(u64_to_string(u64::MAX), "18446744073709551615");
}

#[test]
fn join_plus_joins_with_plus_signs() {
    assert_eq!(join_plus(&vec![]), "");
    assert_eq!(join_plus(&vec!["a".to_string()]), "a");
    assert_eq!(
        join_plus(&vec!["cat".to_string(), "dog".to_string(), "bird".to_string()]),
        "cat+dog+bird"
    );
}

#[test]
fn case_insensitive_comparison() {
    assert!(str_eq_ignore_case("KonaChan", "konachan"));
    assert!(str_eq_ignore_case("", ""));
    assert!(!str_eq_ignore_case("kona", "konachan"));
    assert!(!str_eq_ignore_case("reddit", "konachan"));
}

#[test]
fn build_page_url_composes_all_parts() {
    let url = build_page_url("https://b?limit=5", "tags", "page", "q", 12);
    assert_eq!(url, "https://b?limit=5&tags=q&page=12");
}
