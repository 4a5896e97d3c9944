//! Enqueues URLs to crawl and decides, tick by tick, when to hand the next one to
//! the downloader.
//!
//! A tick dispatches only while fewer fetches are in flight than the settings
//! allow and more than `download_delay` milliseconds have passed since the last
//! dispatching tick. Such a tick restarts that window even when the queue was empty.
use vstd::prelude::*;

use crate::crawler::{Request, RequestVec};
use crate::downloader;
use crate::scheduler::queue::{popped, pushed, Queue, QueueBuilder};
use crate::settings::{ParserSettings, SchedulerSettings};

pub mod queue;

verus! {

/// A snapshot of the scheduler's state.
#[derive(Clone, Copy, Debug, PartialEq, Eq, Structural)]
pub struct State {
    /// Entries in the queue, counting those that a later pop will discard.
    pub queue_len: usize,
}

/// What a dispatching tick did: the request handed to the downloader, if the queue
/// held one, and the snapshot to broadcast.
#[derive(Debug)]
pub struct Tick {
    pub dispatch: Option<Request>,
    pub state: State,
}

/// Relies on chrono's `Utc::now`: the current time in milliseconds since the Unix
/// epoch. Nothing is assumed of its value.
#[verifier::external_body]
fn now_millis() -> i64 {
    chrono::Utc::now().timestamp_millis()
}

/// The scheduler's queue, its estimate of the fetches in flight, and the time of its
/// last dispatching tick.
pub struct SchedulerInner {
    queue: Queue,
    unprocessed_requests: usize,
    timestamp: i64,
    download_delay: u64,
    concurrent_requests: usize,
}

/// `after` is `before` with the queue changed by pushing `items` in order.
pub open spec fn pushed_in_order(before: Queue, after: Queue, items: Seq<Request>) -> bool {
    exists|qs: Seq<Queue>|
        qs.len() == items.len() + 1 && qs[0] == before && qs[items.len() as int] == after && forall|
            k: int,
        |
            0 <= k < items.len() ==> pushed(qs[k], qs[k + 1], #[trigger] items[k])
}

/// Whether a tick at `now` dispatches.
pub open spec fn admits(s: SchedulerInner, now: i64) -> bool {
    s.in_flight() < s.concurrent_requests() && now - s.timestamp() > s.download_delay()
}

/// What a tick at `now` does. When it admits, it pops the queue, hands on what the
/// pop returned, records `now` as the last dispatch, and yields a snapshot; else it
/// changes nothing and yields nothing.
pub open spec fn ticked(before: SchedulerInner, after: SchedulerInner, now: i64, r: Option<Tick>) -> bool {
    if admits(before, now) {
        &&& r is Some
        &&& popped(before.queue(), after.queue(), r->0.dispatch)
        &&& after.timestamp() == now
        &&& after.in_flight() == before.in_flight()
        &&& after.download_delay() == before.download_delay()
        &&& after.concurrent_requests() == before.concurrent_requests()
        &&& r->0.state.queue_len == after.queue().entries().len()
    } else {
        r is None && after == before
    }
}

/// What every event does to the visited URLs: they only grow, and a dispatched
/// request's URL was not visited before and is after.
pub open spec fn visits(before: SchedulerInner, after: SchedulerInner, dispatch: Option<Request>) -> bool {
    &&& before.queue().visited().subset_of(after.queue().visited())
    &&& dispatch matches Some(req) ==> !before.queue().visited().contains(req.url@)
        && after.queue().visited().contains(req.url@)
}

/// Along a run of events, the visited URLs only grow.
proof fn lemma_visits_grow(states: Seq<SchedulerInner>, dispatched: Seq<Option<Request>>, a: int, b: int)
    requires
        states.len() == dispatched.len() + 1,
        forall|k: int| 0 <= k < dispatched.len() ==> visits(states[k], states[k + 1], #[trigger] dispatched[k]),
        0 <= a <= b < states.len(),
    ensures
        states[a].queue().visited().subset_of(states[b].queue().visited()),
    decreases b - a,
{
    if a < b {
        lemma_visits_grow(states, dispatched, a, b - 1);
        assert(visits(states[b - 1], states[b], dispatched[b - 1]));
    }
}

/// Along any run of events (ticks, batches of requests, downloader snapshots), no URL
/// is dispatched twice, however often it was pushed.
pub proof fn dispatch_never_repeats_url(
    states: Seq<SchedulerInner>,
    dispatched: Seq<Option<Request>>,
    i: int,
    j: int,
)
    requires
        states.len() == dispatched.len() + 1,
        forall|k: int| 0 <= k < dispatched.len() ==> visits(states[k], states[k + 1], #[trigger] dispatched[k]),
        0 <= i < j < dispatched.len(),
        dispatched[i] is Some,
        dispatched[j] is Some,
    ensures
        dispatched[i]->0.url@ != dispatched[j]->0.url@,
{
    assert(visits(states[i], states[i + 1], dispatched[i]));
    assert(visits(states[j], states[j + 1], dispatched[j]));
    lemma_visits_grow(states, dispatched, i + 1, j);
}

/// `after` is `before` once it has taken in the downloader snapshot `d`.
pub open spec fn heard(before: SchedulerInner, after: SchedulerInner, d: downloader::State) -> bool {
    &&& after.in_flight() == d.in_flight()
    &&& after.queue() == before.queue()
    &&& after.timestamp() == before.timestamp()
    &&& after.download_delay() == before.download_delay()
    &&& after.concurrent_requests() == before.concurrent_requests()
}

/// One event of a crawl in which each downloader snapshot reaches the scheduler at
/// once: a tick, whose dispatch the downloader starts; a fetch that ends in success
/// or error; or a batch of new requests.
pub open spec fn crawl_step(
    s1: SchedulerInner,
    d1: downloader::State,
    s2: SchedulerInner,
    d2: downloader::State,
) -> bool {
    ||| exists|mid: SchedulerInner, now: i64, r: Option<Tick>|
        ticked(s1, mid, now, r) && heard(mid, s2, d2) && if r matches Some(t) && t.dispatch is Some {
            d1.request_total < usize::MAX && d2 == (downloader::State {
                request_total: (d1.request_total + 1) as usize,
                ..d1
            })
        } else {
            d2 == d1
        }
    ||| d1.in_flight() > 0 && heard(s1, s2, d2) && (d2 == (downloader::State {
        request_success: (d1.request_success + 1) as usize,
        ..d1
    }) || d2 == (downloader::State { request_error: (d1.request_error + 1) as usize, ..d1 }))
    ||| d2 == d1 && s2.in_flight() == s1.in_flight() && s2.concurrent_requests()
        == s1.concurrent_requests()
}

/// Along any run of ticks, settled fetches and batches in which the downloader's
/// snapshots reach the scheduler at once, the fetches in flight never exceed the
/// ceiling, however many requests are queued.
pub proof fn in_flight_never_exceeds_ceiling(ss: Seq<SchedulerInner>, ds: Seq<downloader::State>, k: int)
    requires
        ss.len() == ds.len(),
        0 <= k < ss.len(),
        ds[0].wf(),
        ss[0].in_flight() == ds[0].in_flight(),
        ds[0].in_flight() <= ss[0].concurrent_requests(),
        forall|i: int| 0 <= i < ss.len() - 1 ==> crawl_step(ss[i], ds[i], #[trigger] ss[i + 1], ds[i + 1]),
    ensures
        ds[k].wf(),
        ss[k].in_flight() == ds[k].in_flight(),
        ds[k].in_flight() <= ss[k].concurrent_requests(),
    decreases k,
{
    if k > 0 {
        in_flight_never_exceeds_ceiling(ss, ds, k - 1);
        let (s1, d1, s2, d2) = (ss[k - 1], ds[k - 1], ss[k], ds[k]);
        assert(crawl_step(s1, d1, ss[(k - 1) + 1], ds[(k - 1) + 1]));
        if exists|mid: SchedulerInner, now: i64, r: Option<Tick>|
            ticked(s1, mid, now, r) && heard(mid, s2, d2) && if r matches Some(t) && t.dispatch is Some {
                d1.request_total < usize::MAX && d2 == (downloader::State {
                    request_total: (d1.request_total + 1) as usize,
                    ..d1
                })
            } else {
                d2 == d1
            } {
            let (mid, now, r) = choose|mid: SchedulerInner, now: i64, r: Option<Tick>|
                ticked(s1, mid, now, r) && heard(mid, s2, d2) && if r matches Some(t) && t.dispatch is Some {
                    d1.request_total < usize::MAX && d2 == (downloader::State {
                        request_total: (d1.request_total + 1) as usize,
                        ..d1
                    })
                } else {
                    d2 == d1
                };
            assert(ticked(s1, mid, now, r));
        }
    }
}

impl SchedulerInner {
    pub closed spec fn queue(self) -> Queue {
        self.queue
    }

    /// The estimate of fetches in flight, from the downloader's latest snapshot.
    pub closed spec fn in_flight(self) -> int {
        self.unprocessed_requests as int
    }

    /// The time of the last dispatching tick.
    pub closed spec fn timestamp(self) -> int {
        self.timestamp as int
    }

    pub closed spec fn download_delay(self) -> int {
        self.download_delay as int
    }

    pub closed spec fn concurrent_requests(self) -> int {
        self.concurrent_requests as int
    }

    pub closed spec fn wf(self) -> bool {
        self.queue.wf()
    }

    /// An empty scheduler for the given strategy and admission settings, whose
    /// dispatch window starts at `now`.
    pub fn with_time(parser: &ParserSettings, settings: &SchedulerSettings, now: i64) -> (r: Self)
        ensures
            r.wf(),
            r.queue().entries().len() == 0,
            r.queue().visited() == Set::<Seq<char>>::empty(),
            r.queue().kind() == QueueBuilder::build_kind(parser.crawl_strategy),
            r.in_flight() == 0,
            r.timestamp() == now,
            r.download_delay() == settings.download_delay,
            r.concurrent_requests() == settings.concurrent_requests,
    {
        SchedulerInner {
            queue: QueueBuilder::build(parser.crawl_strategy),
            unprocessed_requests: 0,
            timestamp: now,
            download_delay: settings.download_delay,
            concurrent_requests: settings.concurrent_requests,
        }
    }

    /// An empty scheduler whose dispatch window starts at the current time.
    pub fn new(parser: &ParserSettings, settings: &SchedulerSettings) -> (r: Self)
        ensures
            r.wf(),
            r.queue().entries().len() == 0,
            r.queue().visited() == Set::<Seq<char>>::empty(),
            r.queue().kind() == QueueBuilder::build_kind(parser.crawl_strategy),
            r.in_flight() == 0,
            r.download_delay() == settings.download_delay,
            r.concurrent_requests() == settings.concurrent_requests,
    {
        SchedulerInner::with_time(parser, settings, now_millis())
    }

    /// The snapshot to broadcast.
    pub fn state(&self) -> (r: State)
        ensures
            r.queue_len == self.queue().entries().len(),
    {
        State { queue_len: self.queue.len() }
    }

    /// The time of the last dispatching tick, in milliseconds.
    pub fn last_dispatch(&self) -> (r: i64)
        ensures
            r == self.timestamp(),
    {
        self.timestamp
    }

    /// Whether a tick at `now` dispatches.
    pub fn ready(&self, now: i64) -> (r: bool)
        ensures
            r == admits(*self, now),
    {
        let elapsed: i128 = now as i128 - self.timestamp as i128;
        self.unprocessed_requests < self.concurrent_requests && elapsed > self.download_delay as i128
    }

    /// One tick of the admission loop at time `now`.
    pub fn tick(&mut self, now: i64) -> (r: Option<Tick>)
        requires
            old(self).wf(),
        ensures
            final(self).wf(),
            ticked(*old(self), *final(self), now, r),
            visits(*old(self), *final(self), match r {
                Some(t) => t.dispatch,
                None => None,
            }),
    {
        if !self.ready(now) {
            return None;
        }
        let dispatch = self.queue.pop();
        self.timestamp = now;
        Some(Tick { dispatch, state: self.state() })
    }

    /// One tick of the admission loop at the current time.
    pub fn tick_now(&mut self) -> (r: Option<Tick>)
        requires
            old(self).wf(),
        ensures
            final(self).wf(),
            exists|now: i64| ticked(*old(self), *final(self), now, r),
            visits(*old(self), *final(self), match r {
                Some(t) => t.dispatch,
                None => None,
            }),
    {
        let now = now_millis();
        self.tick(now)
    }

    /// Pushes a batch of requests in order; returns the snapshot to broadcast.
    pub fn push_requests(&mut self, batch: RequestVec) -> (r: State)
        requires
            old(self).wf(),
        ensures
            final(self).wf(),
            pushed_in_order(old(self).queue(), final(self).queue(), batch.requests@),
            final(self).in_flight() == old(self).in_flight(),
            final(self).timestamp() == old(self).timestamp(),
            final(self).download_delay() == old(self).download_delay(),
            final(self).concurrent_requests() == old(self).concurrent_requests(),
            visits(*old(self), *final(self), None),
            r.queue_len == final(self).queue().entries().len(),
    {
        let ghost items = batch.requests@;
        let ghost mut qs: Seq<Queue> = seq![self.queue];
        let requests = batch.requests;
        let mut i: usize = 0;
        while i < requests.len()
            invariant
                i <= requests@.len(),
                items == requests@,
                self.wf(),
                qs.len() == i + 1,
                qs[0] == old(self).queue,
                qs[i as int] == self.queue,
                forall|k: int| 0 <= k < i ==> pushed(qs[k], qs[k + 1], #[trigger] items[k]),
                self.unprocessed_requests == old(self).unprocessed_requests,
                self.timestamp == old(self).timestamp,
                self.download_delay == old(self).download_delay,
                self.concurrent_requests == old(self).concurrent_requests,
                self.queue.visited() == old(self).queue.visited(),
            decreases requests@.len() - i,
        {
            let item = requests[i].duplicate();
            self.queue.push(item);
            proof {
                qs = qs.push(self.queue);
            }
            i = i + 1;
        }
        assert(pushed_in_order(old(self).queue(), self.queue(), items));
        State { queue_len: self.queue.len() }
    }

    /// Takes in the downloader's latest snapshot.
    pub fn update_in_flight(&mut self, msg: &downloader::State)
        requires
            msg.wf(),
        ensures
            final(self).in_flight() == msg.in_flight(),
            final(self).queue() == old(self).queue(),
            final(self).timestamp() == old(self).timestamp(),
            final(self).download_delay() == old(self).download_delay(),
            final(self).concurrent_requests() == old(self).concurrent_requests(),
            final(self).wf() == old(self).wf(),
            heard(*old(self), *final(self), *msg),
            visits(*old(self), *final(self), None),
    {
        self.unprocessed_requests = msg.request_total - msg.request_success - msg.request_error;
    }
}

} // verus!
