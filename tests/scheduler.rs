use vortex::crawler::{Request, RequestVec};
use vortex::downloader::{DownloaderInner, State as DownloaderState};
use vortex::scheduler::SchedulerInner;
use vortex::settings::{CrawlStrategy, ParserSettings, SchedulerSettings};

fn scheduler(concurrent_requests: usize) -> SchedulerInner {
    SchedulerInner::with_time(
        &ParserSettings { crawl_strategy: CrawlStrategy::BFO },
        &SchedulerSettings { download_delay: 100, concurrent_requests },
        0,
    )
}

fn batch(urls: &[&str]) -> RequestVec {
    RequestVec::new(urls.iter().map(|u| Request::new(u.to_string(), 0, 1)).collect())
}

#[test]
fn tick_waits_for_the_delay() {
    let mut s = scheduler(1);
    let state = s.push_requests(batch(&["http://x/a"]));
    assert_eq!(state.queue_len, 1);
    assert!(s.tick(50).is_none());
    assert!(s.tick(100).is_none());
    let t = s.tick(101).unwrap();
    assert_eq!(t.dispatch.unwrap().url, "http://x/a");
    assert_eq!(t.state.queue_len, 0);
    assert_eq!(s.last_dispatch(), 101);
}

#[test]
fn empty_tick_restarts_the_window() {
    let mut s = scheduler(1);
    let t = s.tick(200).unwrap();
    assert!(t.dispatch.is_none());
    assert_eq!(s.last_dispatch(), 200);
    s.push_requests(batch(&["http://x/a"]));
    assert!(s.tick(250).is_none());
    assert!(s.tick(301).unwrap().dispatch.is_some());
}

#[test]
fn url_is_dispatched_once_however_often_pushed() {
    let mut s = scheduler(10);
    s.push_requests(batch(&["http://x/a", "http://x/a"]));
    let mut now = 0;
    let mut dispatched = Vec::new();
    for round in 0..6 {
        if round == 2 {
            s.push_requests(batch(&["http://x/a", "http://x/b"]));
        }
        now += 101;
        if let Some(t) = s.tick(now) {
            if let Some(r) = t.dispatch {
                dispatched.push(r.url);
            }
        }
    }
    assert_eq!(dispatched, vec!["http://x/a".to_string(), "http://x/b".to_string()]);
}

#[test]
fn burst_never_exceeds_the_ceiling() {
    let concurrent = 3;
    let mut s = scheduler(concurrent);
    let urls: Vec<String> = (0..50).map(|i| format!("http://x/{}", i)).collect();
    let refs: Vec<&str> = urls.iter().map(|u| u.as_str()).collect();
    s.push_requests(batch(&refs));
    let mut downloader = DownloaderInner::new();
    let mut in_flight: Vec<Request> = Vec::new();
    let mut now = 0;
    let mut max_seen = 0;
    for round in 0..200 {
        now += 101;
        if let Some(t) = s.tick(now) {
            if let Some(r) = t.dispatch {
                let st = downloader.increase_request_total();
                s.update_in_flight(&st);
                in_flight.push(r);
            }
        }
        max_seen = max_seen.max(in_flight.len());
        assert!(in_flight.len() <= concurrent);
        if round % 4 == 3 && !in_flight.is_empty() {
            in_flight.remove(0);
            let st = downloader.increase_request_success();
            s.update_in_flight(&st);
        }
    }
    assert_eq!(max_seen, concurrent);
}

#[test]
fn feedback_sets_the_in_flight_estimate() {
    let mut s = scheduler(1);
    s.push_requests(batch(&["http://x/a", "http://x/b"]));
    s.update_in_flight(&DownloaderState { request_total: 3, request_success: 1, request_error: 1 });
    assert!(s.tick(500).is_none());
    s.update_in_flight(&DownloaderState { request_total: 3, request_success: 2, request_error: 1 });
    assert!(s.tick(500).unwrap().dispatch.is_some());
    assert!(s.ready(601));
}

#[test]
fn downloader_counts_and_forwards() {
    let mut d = DownloaderInner::new();
    assert_eq!(d.increase_request_total().request_total, 1);
    assert_eq!(d.increase_request_total().request_total, 2);
    let res = vortex::crawler::Response::new(Request::new("http://x/".to_string(), 0, 1));
    let (st, out) = d.complete(Some(res));
    assert_eq!(st, DownloaderState { request_total: 2, request_success: 1, request_error: 0 });
    assert_eq!(out.unwrap().request.url, "http://x/");
    let (st, out) = d.complete(None);
    assert_eq!(st, DownloaderState { request_total: 2, request_success: 1, request_error: 1 });
    assert!(out.is_none());
    assert_eq!(d.state(), st);
}

#[test]
fn new_scheduler_starts_its_window_now() {
    let s = SchedulerInner::new(
        &ParserSettings { crawl_strategy: CrawlStrategy::Basic },
        &SchedulerSettings { download_delay: 100, concurrent_requests: 1 },
    );
    assert!(s.last_dispatch() > 1_500_000_000_000);
    assert_eq!(s.state().queue_len, 0);
}

#[test]
fn end_to_end_seed_to_three_children() {
    let mut s = scheduler(1);
    s.push_requests(RequestVec::new(vec![Request::new("http://x/".to_string(), 0, 1)]));
    let mut d = DownloaderInner::new();
    let seed = s.tick(101).unwrap().dispatch.unwrap();
    let st = d.increase_request_total();
    s.update_in_flight(&st);
    assert!(s.tick(202).is_none());

    let mut res = vortex::crawler::Response::new(seed);
    res.body = "<html><body><h1 class=\"title\">Cats</h1>\
        <a href=\"http://x/1\">1</a><a href=\"http://x/2\">2</a><a href=\"http://x/3\">3</a>\
        </body></html>"
        .to_string();
    let (st, forwarded) = d.complete(Some(res));
    s.update_in_flight(&st);
    let res = forwarded.unwrap();

    let rule = vortex::spider::CrawlRule {
        condition: vortex::spider::Condition::new(vec!["."], vec![]).unwrap(),
        parse_rule: vortex::spider::ParseRule::pattern("title", vortex::spider::Pattern::CssSelector(".title".to_string())),
    };
    let parser = vortex::parser::Parser::new(vec![rule], CrawlStrategy::BFO);
    let page = vortex::parser::Page::from_response(&res);
    let state = s.push_requests(parser.next_requests(&res, &page));
    assert_eq!(state.queue_len, 3);
    let outcomes = parser
        .extractions(&res, &page)
        .into_iter()
        .map(|e| match e {
            vortex::parser::Extraction::Pattern(m) => vortex::parser::Outcome::Value(serde_json::Value::String(m[0].clone())),
            _ => vortex::parser::Outcome::Nothing,
        })
        .collect();
    let items = parser.items(&res.request, outcomes);
    assert_eq!(items.len(), 1);
    match &items[0].data {
        vortex::crawler::ItemData::Record(r) => {
            assert_eq!(r.fields(), &vec![("title".to_string(), serde_json::Value::String("Cats".to_string()))]);
        }
        vortex::crawler::ItemData::Value(_) => panic!("expected a record"),
    }

    let mut children = Vec::new();
    let mut now = 202;
    while children.len() < 3 {
        now += 101;
        if let Some(t) = s.tick(now) {
            let r = t.dispatch.unwrap();
            let st = d.increase_request_total();
            s.update_in_flight(&st);
            assert_eq!(r.depth, 1);
            assert_eq!(r.priority, 500_000_000);
            children.push(r.url);
            let (st, _) = d.complete(None);
            s.update_in_flight(&st);
        }
    }
    assert_eq!(children, vec!["http://x/1".to_string(), "http://x/2".to_string(), "http://x/3".to_string()]);
}
