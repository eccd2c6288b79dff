use ecstasy::collectors::konachan::{decode_posts, KonachanCollector};
use ecstasy::engine::{
    apply_posts, engine_step, finish, next_page_url, record_source_result, start_state,
    EngineStatus, PageEvent, PageState,
};
use ecstasy::error::EcstasyError;
use ecstasy::item::EcstasyItem;
use ecstasy::params::EcstasyFilter;

fn filter_with(tags: Vec<&str>, pagelimit: u64) -> EcstasyFilter {
    EcstasyFilter {
        tags: tags.into_iter().map(|t| t.to_string()).collect(),
        subreddits: Vec::new(),
        pagelimit,
    }
}

fn page_body(n: usize) -> String {
    let mut s = String::from("[");
    for i in 0..n {
        if i > 0 {
            s.push(',');
        }
        s.push_str(&format!(
            "{{\"file_url\":\"https://example.com/f{}.png\",\"tags\":\"embedded tags\",\"md5\":\"aabb{}\"}}",
            i, i
        ));
    }
    s.push(']');
    s
}

fn step_body(
    c: &KonachanCollector,
    f: &EcstasyFilter,
    st: PageState,
    body: String,
) -> PageState {
    engine_step(c, f, st, PageEvent::Body(body))
}

#[test]
fn two_full_pages_then_limit() {
    let c = KonachanCollector::new();
    let f = filter_with(vec!["cat"], 2);
    let st = start_state();
    assert_eq!(st.page, 1);
    let st = step_body(&c, &f, st, page_body(100));
    assert_eq!(st.status, EngineStatus::Fetching);
    assert_eq!(st.page, 2);
    assert_eq!(st.items.len(), 100);
    let st = step_body(&c, &f, st, page_body(100));
    assert_eq!(st.status, EngineStatus::Done);
    let items = finish(st).expect("a finished run yields its items");
    assert_eq!(items.len(), 200);
    for it in &items {
        assert_eq!(it.tags, vec!["cat".to_string()]);
        assert_eq!(it.source_id, "konachan");
        assert!(it.source_url.starts_with("https://example.com/f"));
    }
}

#[test]
fn malformed_second_page_degrades_gracefully() {
    let c = KonachanCollector::new();
    let f = filter_with(vec!["cat"], u64::MAX);
    let st = start_state();
    let st = step_body(&c, &f, st, page_body(100));
    assert_eq!(st.status, EngineStatus::Fetching);
    let st = step_body(&c, &f, st, String::from("this is not json {{"));
    assert_eq!(st.status, EngineStatus::Done);
    let items = finish(st).expect("decode drift is not an error");
    assert_eq!(items.len(), 100);
}

#[test]
fn transport_failure_on_first_page_fails_with_transport() {
    let c = KonachanCollector::new();
    let f = filter_with(vec!["cat"], u64::MAX);
    let st = start_state();
    let st = engine_step(&c, &f, st, PageEvent::TransportFailure);
    assert_eq!(st.status, EngineStatus::Failed);
    let res = finish(st);
    assert_eq!(res.err(), Some(EcstasyError::Transport));
}

#[test]
fn transport_failure_discards_that_collectors_items() {
    let c = KonachanCollector::new();
    let f = filter_with(vec!["cat"], u64::MAX);
    let st = start_state();
    let st = step_body(&c, &f, st, page_body(3));
    assert_eq!(st.items.len(), 3);
    let st = engine_step(&c, &f, st, PageEvent::TransportFailure);
    assert_eq!(st.status, EngineStatus::Failed);
    assert!(finish(st).is_err());
}

#[test]
fn empty_page_ends_collection_before_the_limit() {
    let c = KonachanCollector::new();
    let f = filter_with(vec!["cat"], 10);
    let st = start_state();
    let st = step_body(&c, &f, st, String::from("[]"));
    assert_eq!(st.status, EngineStatus::Done);
    assert_eq!(finish(st).unwrap().len(), 0);
}

#[test]
fn page_limit_one_fetches_exactly_one_page() {
    let c = KonachanCollector::new();
    let f = filter_with(vec!["cat"], 1);
    let st = start_state();
    let st = step_body(&c, &f, st, page_body(5));
    assert_eq!(st.status, EngineStatus::Done);
    assert_eq!(finish(st).unwrap().len(), 5);
}

#[test]
fn page_limit_zero_reads_as_one_page() {
    let c = KonachanCollector::new();
    let f = filter_with(vec!["cat"], 0);
    let st = start_state();
    let st = step_body(&c, &f, st, page_body(5));
    assert_eq!(st.status, EngineStatus::Done);
    assert_eq!(finish(st).unwrap().len(), 5);
}

#[test]
fn items_carry_requested_tags_not_record_tags() {
    let c = KonachanCollector::new();
    let f = filter_with(vec!["cat", "dog"], 1);
    let st = start_state();
    let st = step_body(&c, &f, st, page_body(2));
    let items = finish(st).unwrap();
    for it in &items {
        assert_eq!(it.tags, vec!["cat".to_string(), "dog".to_string()]);
    }
}

#[test]
fn next_page_url_builds_the_konachan_page_url() {
    let c = KonachanCollector::new();
    let f = filter_with(vec!["cat", "dog"], 5);
    let mut st = start_state();
    st.page = 3;
    let url = next_page_url(&c, &f, &st).unwrap();
    assert_eq!(
        url,
        "https://konachan.com/post.json?limit=100&tags=cat+dog&page=3"
    );
}

#[test]
fn apply_posts_none_is_a_normal_end() {
    let f = filter_with(vec!["cat"], 10);
    let st = start_state();
    let st = apply_posts(&f, "konachan", st, None);
    assert_eq!(st.status, EngineStatus::Done);
    assert_eq!(st.items.len(), 0);
    assert_eq!(st.page, 1);
}

#[test]
fn decode_posts_reads_a_wellformed_page() {
    let body = "[{\"file_url\":\"https://x/a.png\",\"tags\":\"t u\",\"md5\":\"00ff\",\"extra\":1}]";
    let posts = decode_posts(body).expect("well-formed page decodes");
    assert_eq!(posts.len(), 1);
    assert_eq!(posts[0].file_url, "https://x/a.png");
    assert_eq!(posts[0].tags, "t u");
    assert_eq!(posts[0].md5, "00ff");
}

#[test]
fn decode_posts_rejects_drifted_shapes() {
    assert!(decode_posts("not json").is_none());
    assert!(decode_posts("{\"file_url\":\"x\"}").is_none());
    assert!(decode_posts("[{\"tags\":\"t\",\"md5\":\"m\"}]").is_none());
    assert!(decode_posts("[{\"file_url\":7,\"tags\":\"t\",\"md5\":\"m\"}]").is_none());
    assert!(decode_posts("[{\"file_url\":\"\",\"tags\":\"t\",\"md5\":\"m\"}]").is_none());
}

#[test]
fn failed_source_discards_nothing_from_other_collectors() {
    let mut total: Vec<EcstasyItem> = Vec::new();
    let mut failures: Vec<String> = Vec::new();
    let first = vec![EcstasyItem::new(
        "https://example.com/a.png".to_string(),
        vec!["cat".to_string()],
        "konachan".to_string(),
    )];
    let e = record_source_result(&mut total, &mut failures, "konachan", Ok(first));
    assert!(e.is_none());
    assert_eq!(total.len(), 1);
    let e = record_source_result(
        &mut total,
        &mut failures,
        "reddit",
        Err(EcstasyError::Transport),
    );
    assert_eq!(e, Some(EcstasyError::Transport));
    assert_eq!(total.len(), 1);
    assert_eq!(total[0].source_url, "https://example.com/a.png");
    assert_eq!(failures, vec!["reddit".to_string()]);
}
