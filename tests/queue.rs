use vortex::crawler::Request;
use vortex::scheduler::queue::{Queue, QueueBuilder, QueueKind};
use vortex::settings::CrawlStrategy;

#[test]
fn test_queue_push_pop() {
    let request_1 = Request::new("http://en.wikipedia.org/".to_string(), 0, 1);
    let request_2 = Request::new("http://en.wikipedia.org/".to_string(), 0, 2);
    let request_3 = Request::new("http://ru.wikipedia.org/".to_string(), 1, 1);

    let mut queue = Queue::new(QueueKind::Fifo);
    queue.push(request_1.clone());
    queue.push(request_2.clone());
    queue.push(request_3.clone());
    assert_eq!(queue.len(), 3);
    let item = queue.pop();
    assert_eq!(item.unwrap().priority, 1);
    assert_eq!(queue.len(), 2);
    queue.push(request_1.clone());
    assert_eq!(queue.len(), 2);
    let item = queue.pop();
    assert_eq!(item.unwrap().depth, 1);
    assert_eq!(queue.pop(), None);

    let mut queue = Queue::new(QueueKind::Priority);
    queue.push(request_1.clone());
    queue.push(request_2.clone());
    queue.push(request_3.clone());
    assert_eq!(queue.len(), 3);
    let item = queue.pop();
    assert_eq!(item.unwrap().priority, 2);
    assert_eq!(queue.len(), 2);
    queue.push(request_1.clone());
    assert_eq!(queue.len(), 2);
    let item = queue.pop();
    assert_eq!(item.unwrap().depth, 1);
    assert_eq!(queue.pop(), None);
}

#[test]
fn pop_never_returns_a_popped_url_again() {
    let mut queue = Queue::new(QueueKind::Fifo);
    let url = "http://x/a".to_string();
    queue.push(Request::new(url.clone(), 0, 1));
    queue.push(Request::new(url.clone(), 1, 1));
    queue.push(Request::new(url.clone(), 2, 1));
    // duplicates of an unvisited URL all enter, and len counts them
    assert_eq!(queue.len(), 3);
    let first = queue.pop().unwrap();
    assert_eq!(first.depth, 0);
    assert_eq!(queue.len(), 2);
    queue.push(Request::new(url.clone(), 3, 1));
    assert_eq!(queue.len(), 2);
    assert_eq!(queue.pop(), None);
    assert_eq!(queue.len(), 0);
    assert!(queue.is_visited(&url));
}

#[test]
fn priority_queue_orders_by_priority_then_insertion() {
    let mut queue = Queue::new(QueueKind::Priority);
    queue.push(Request::new("http://x/low".to_string(), 0, 5));
    queue.push(Request::new("http://x/high".to_string(), 0, 9));
    queue.push(Request::new("http://x/mid1".to_string(), 0, 7));
    queue.push(Request::new("http://x/mid2".to_string(), 0, 7));
    assert_eq!(queue.pop().unwrap().url, "http://x/high");
    assert_eq!(queue.pop().unwrap().url, "http://x/mid1");
    assert_eq!(queue.pop().unwrap().url, "http://x/mid2");
    assert_eq!(queue.pop().unwrap().url, "http://x/low");
    assert_eq!(queue.pop(), None);
}

#[test]
fn fifo_queue_keeps_push_order() {
    let mut queue = QueueBuilder::build(CrawlStrategy::Basic);
    queue.push(Request::new("http://x/1".to_string(), 0, 1));
    queue.push(Request::new("http://x/2".to_string(), 0, 9));
    assert_eq!(queue.pop().unwrap().url, "http://x/1");
    assert_eq!(queue.pop().unwrap().url, "http://x/2");
}

#[test]
fn builder_picks_priority_queue_for_ordered_strategies() {
    for strategy in [CrawlStrategy::BFO, CrawlStrategy::DFO] {
        let mut queue = QueueBuilder::build(strategy);
        queue.push(Request::new("http://x/1".to_string(), 0, 1));
        queue.push(Request::new("http://x/2".to_string(), 0, 9));
        assert_eq!(queue.pop().unwrap().url, "http://x/2");
    }
}

#[test]
fn empty_queue_pops_nothing() {
    let mut queue = Queue::new(QueueKind::Priority);
    assert_eq!(queue.len(), 0);
    assert_eq!(queue.pop(), None);
}
