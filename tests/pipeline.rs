use twitch_crawler::category::{fallback_name, CategoryCache, CategoryLookup};
use twitch_crawler::comments::comments_query;
use twitch_crawler::metrics::{assemble, assemble_page, class_name};
use twitch_crawler::pagination::{page_transition, surviving_count, PageState, ShardPager};
use twitch_crawler::planner::{plan, PlanError};
use twitch_crawler::query::request_headers;
use twitch_crawler::streams::{games_query, stream_query, users_login_query, HelixStream, StreamFilter};
use twitch_crawler::tick::TickRun;

fn s(x: &str) -> String {
    x.to_string()
}

fn stream(login: &str, game_id: &str, viewers: i32) -> HelixStream {
    HelixStream {
        id: format!("id-{}", login),
        user_id: format!("uid-{}", login),
        user_name: login.to_uppercase(),
        user_login: s(login),
        game_id: s(game_id),
        stream_type: s("live"),
        title: s("title"),
        viewer_count: viewers,
        started_at: s("2024-01-01T00:00:00Z"),
        language: s("fr"),
        thumbnail_url: s(""),
    }
}

fn logins(n: usize) -> Vec<String> {
    (0..n).map(|i| format!("user{}", i)).collect()
}

fn pairs(v: &[(&str, &str)]) -> Vec<(String, String)> {
    v.iter().map(|(k, x)| (s(k), s(x))).collect()
}

#[test]
fn plan_150_logins_gives_two_shards() {
    let mut f = StreamFilter::default();
    f.user_logins = Some(logins(150));
    let shards = plan(&f).unwrap();
    assert_eq!(shards.len(), 2);
    assert_eq!(shards[0].user_logins.as_ref().unwrap().len(), 100);
    assert_eq!(shards[1].user_logins.as_ref().unwrap().len(), 50);
}

#[test]
fn plan_keeps_login_order_and_other_fields() {
    let mut f = StreamFilter::default();
    f.user_logins = Some(logins(250));
    f.languages = Some(vec![s("fr"), s("en")]);
    f.game_ids = Some(vec![s("509658")]);
    let shards = plan(&f).unwrap();
    assert_eq!(shards.len(), 3);
    let mut joined: Vec<String> = Vec::new();
    for sh in &shards {
        assert!(sh.user_logins.as_ref().unwrap().len() <= 100);
        assert_eq!(sh.languages, f.languages);
        assert_eq!(sh.game_ids, f.game_ids);
        assert_eq!(sh.first, Some(100));
        joined.extend(sh.user_logins.clone().unwrap());
    }
    assert_eq!(joined, logins(250));
}

#[test]
fn plan_exactly_100_logins_is_one_shard() {
    let mut f = StreamFilter::default();
    f.user_logins = Some(logins(100));
    let shards = plan(&f).unwrap();
    assert_eq!(shards.len(), 1);
    assert_eq!(shards[0].user_logins, Some(logins(100)));
}

#[test]
fn plan_without_logins_sends_filter_as_is() {
    let mut f = StreamFilter::default();
    f.game_ids = Some(vec![s("1"), s("2")]);
    let shards = plan(&f).unwrap();
    assert_eq!(shards.len(), 1);
    assert_eq!(shards[0].game_ids, f.game_ids);
    assert_eq!(shards[0].user_logins, None);
}

#[test]
fn plan_refuses_empty_filter() {
    let f = StreamFilter::default();
    assert_eq!(plan(&f).err(), Some(PlanError::NoSelector));
}

#[test]
fn plan_refuses_too_many_game_ids() {
    let mut f = StreamFilter::default();
    f.game_ids = Some(logins(101));
    assert_eq!(plan(&f).err(), Some(PlanError::TooManyValues));
    let mut g = StreamFilter::default();
    g.languages = Some(logins(101));
    g.user_logins = Some(logins(3));
    assert_eq!(plan(&g).err(), Some(PlanError::TooManyValues));
}

#[test]
fn short_page_ends_and_clears_cursor() {
    assert_eq!(page_transition(100, 99, Some(s("c"))), (PageState::Done, None));
    assert_eq!(page_transition(100, 0, None), (PageState::Done, None));
    let mut f = StreamFilter::default();
    f.after = Some(s("old"));
    let mut p = ShardPager::new(f);
    assert_eq!(p.filter.after, None);
    let recs = vec![stream("a", "1", 10)];
    let kept = p.on_page(&recs, Some(s("next")), 0);
    assert_eq!(kept, 1);
    assert_eq!(p.state, PageState::Done);
    assert_eq!(p.filter.after, None);
    assert!(p.next_request().is_none());
}

#[test]
fn full_page_follows_cursor() {
    assert_eq!(page_transition(2, 2, Some(s("c"))), (PageState::Continuing, Some(s("c"))));
    assert_eq!(page_transition(2, 2, None), (PageState::Done, None));
    let mut f = StreamFilter::default();
    f.first = Some(2);
    let mut p = ShardPager::new(f);
    let recs = vec![stream("a", "1", 30), stream("b", "1", 20)];
    let kept = p.on_page(&recs, Some(s("cur")), 5);
    assert_eq!(kept, 2);
    assert_eq!(p.state, PageState::Continuing);
    let next = p.next_request().unwrap();
    assert_eq!(next.after, Some(s("cur")));
}

#[test]
fn early_stop_drops_rest_of_page() {
    let recs = vec![stream("a", "1", 50), stream("b", "1", 10), stream("c", "1", 60)];
    assert_eq!(surviving_count(&recs, 20), 1);
    assert_eq!(surviving_count(&recs, 0), 3);
    assert_eq!(surviving_count(&recs, 51), 0);
    let mut f = StreamFilter::default();
    f.first = Some(3);
    let mut p = ShardPager::new(f);
    let kept = p.on_page(&recs, Some(s("cur")), 20);
    assert_eq!(kept, 1);
    assert_eq!(p.state, PageState::Done);
}

#[test]
fn failed_request_ends_shard() {
    let mut p = ShardPager::new(StreamFilter::default());
    assert_eq!(p.state, PageState::Requesting);
    p.on_error();
    assert_eq!(p.state, PageState::Done);
}

#[test]
fn lookup_failure_is_cached_once() {
    let mut cache = CategoryCache::new();
    let x = s("X");
    assert!(cache.get(&x).is_none());
    let mut lookups = 0;
    let mut names = Vec::new();
    for _ in 0..3 {
        let name = match cache.get(&x) {
            Some(n) => n,
            None => {
                lookups += 1;
                cache.resolve_with(&x, CategoryLookup::Failed)
            }
        };
        names.push(name);
    }
    assert_eq!(lookups, 1);
    assert_eq!(names, vec![s("Pas de catégorie"); 3]);
    assert_eq!(fallback_name(), s("Pas de catégorie"));
    assert_eq!(cache.resolve_with(&x, CategoryLookup::Found(s("Chess"))), s("Pas de catégorie"));
}

#[test]
fn resolver_returns_same_name() {
    let mut cache = CategoryCache::new();
    let id = s("509658");
    assert_eq!(cache.resolve_with(&id, CategoryLookup::Found(s("Just Chatting"))), s("Just Chatting"));
    assert_eq!(cache.get(&id), Some(s("Just Chatting")));
    assert_eq!(cache.resolve_with(&id, CategoryLookup::Missing), s("Just Chatting"));
    let other = s("42");
    assert_eq!(cache.resolve_with(&other, CategoryLookup::Missing), s("Pas de catégorie"));
    assert_eq!(cache.get(&id), Some(s("Just Chatting")));
}

#[test]
fn datapoint_has_six_labels() {
    let rec = stream("alice", "509658", 1234);
    let d = assemble(&rec, &s("Just Chatting"), 1_700_000_000_000_000, &s("zevent"), &s("twitch"));
    assert_eq!(d.timestamp, 1_700_000_000_000_000);
    assert_eq!(d.class_name, s("twitch.viewers"));
    assert_eq!(d.value, 1234);
    let labels: Vec<(String, String)> = d.labels.iter().map(|l| (l.name.clone(), l.value.clone())).collect();
    assert_eq!(
        labels,
        pairs(&[
            ("event_name", "zevent"),
            ("stream_id", "id-alice"),
            ("game_id", "509658"),
            ("game_name", "Just Chatting"),
            ("user_id", "uid-alice"),
            ("user_name", "alice"),
        ])
    );
}

#[test]
fn class_name_appends_viewers() {
    assert_eq!(class_name(&s("metrics")), s("metrics.viewers"));
    assert_eq!(class_name(&s("")), s(".viewers"));
}

#[test]
fn end_to_end_single_page_with_early_stop() {
    let mut f = StreamFilter::default();
    f.user_logins = Some(vec![s("a"), s("b")]);
    f.first = Some(100);
    let shards = plan(&f).unwrap();
    assert_eq!(shards.len(), 1);
    let mut run = TickRun::new(shards);
    let mut cache = CategoryCache::new();
    let mut requests = 0;
    let mut sink_calls: Vec<usize> = Vec::new();
    while let Some(req) = run.next_request() {
        requests += 1;
        assert_eq!(req.user_logins, Some(vec![s("a"), s("b")]));
        let page = vec![stream("a", "1", 50), stream("b", "1", 10)];
        let kept = run.on_page(&page, None, 20);
        let mut names = Vec::new();
        for rec in &page[..kept] {
            let name = match cache.get(&rec.game_id) {
                Some(n) => n,
                None => cache.resolve_with(&rec.game_id, CategoryLookup::Found(s("Chess"))),
            };
            names.push(name);
        }
        let batch = assemble_page(&page, &names, 0, &s("ev"), &s("twitch"));
        if !batch.is_empty() {
            sink_calls.push(batch.len());
        }
        assert_eq!(batch[0].labels[5].value, s("a"));
    }
    assert_eq!(requests, 1);
    assert_eq!(sink_calls, vec![1]);
    assert!(run.next_request().is_none());
}

#[test]
fn tick_runs_shards_in_order() {
    let mut f = StreamFilter::default();
    f.user_logins = Some(logins(150));
    f.first = Some(1);
    let mut run = TickRun::new(plan(&f).unwrap());
    let first = run.next_request().unwrap();
    assert_eq!(first.user_logins.as_ref().unwrap().len(), 100);
    run.on_page(&vec![stream("a", "1", 5)], Some(s("p2")), 0);
    let second = run.next_request().unwrap();
    assert_eq!(second.after, Some(s("p2")));
    assert_eq!(run.current, 0);
    run.on_error();
    let third = run.next_request().unwrap();
    assert_eq!(run.current, 1);
    assert_eq!(third.after, None);
    assert_eq!(third.user_logins.as_ref().unwrap().len(), 50);
    run.on_page(&vec![], None, 0);
    assert!(run.next_request().is_none());
    let mut empty = TickRun::new(Vec::new());
    assert!(empty.next_request().is_none());
}

#[test]
fn stream_query_lists_parameters() {
    let mut f = StreamFilter::default();
    f.after = Some(s("cur"));
    f.game_ids = Some(vec![s("1"), s("2")]);
    f.user_logins = Some(vec![s("bob")]);
    assert_eq!(
        stream_query(&f),
        pairs(&[("after", "cur"), ("first", "100"), ("game_id", "1"), ("game_id", "2"), ("user_login", "bob")])
    );
    let mut g = StreamFilter::default();
    g.first = Some(-7);
    g.before = Some(s("b"));
    g.languages = Some(vec![s("fr")]);
    g.user_ids = Some(vec![s("9")]);
    assert_eq!(stream_query(&g), pairs(&[("before", "b"), ("first", "-7"), ("language", "fr"), ("user_id", "9")]));
}

#[test]
fn list_queries_put_first_then_values_then_cursors() {
    assert_eq!(
        games_query(&vec![s("33214")], 20, Some(s("a")), None),
        pairs(&[("first", "20"), ("game_id", "33214"), ("after", "a")])
    );
    assert_eq!(
        users_login_query(&vec![s("x"), s("y")], 5, None, Some(s("b"))),
        pairs(&[("first", "5"), ("user_login", "x"), ("user_login", "y"), ("before", "b")])
    );
}

#[test]
fn comments_query_uses_cursor_or_start() {
    assert_eq!(comments_query(Some(s("abc"))), pairs(&[("cursor", "abc")]));
    assert_eq!(comments_query(None), pairs(&[("content_offset_seconds", "0")]));
}

#[test]
fn headers_carry_bearer_token() {
    assert_eq!(request_headers(&s("cid"), None), pairs(&[("Client-ID", "cid")]));
    let tok = s("tok");
    assert_eq!(
        request_headers(&s("cid"), Some(&tok)),
        pairs(&[("Client-ID", "cid"), ("Authorization", "Bearer tok")])
    );
}
