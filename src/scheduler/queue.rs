//! The scheduler's queue of pending requests and its set of visited URLs.
//!
//! `push` checks the visited set only, so two pushes of one unvisited URL both
//! enter the queue; `pop` discards entries whose URL was visited meanwhile. `len`
//! therefore counts entries that a later `pop` may still discard.
use std::collections::VecDeque;
use vstd::prelude::*;

use crate::crawler::Request;
use crate::settings::CrawlStrategy;

verus! {

/// How a queue orders its entries.
#[derive(Clone, Copy, Debug, PartialEq, Eq, Structural)]
pub enum QueueKind {
    /// First in, first out.
    Fifo,
    /// Highest priority first; entries of equal priority in the order pushed.
    Priority,
}

/// Pending requests, in the order in which `pop` looks at them, and the URLs that
/// `pop` has returned.
pub struct Queue {
    kind: QueueKind,
    queue: VecDeque<Request>,
    visited: Vec<String>,
}

/// Builds the queue that suits a crawl strategy.
pub struct QueueBuilder;

impl QueueBuilder {
    /// The kind of queue that suits a crawl strategy.
    pub open spec fn build_kind(strategy: CrawlStrategy) -> QueueKind {
        if strategy == CrawlStrategy::Basic {
            QueueKind::Fifo
        } else {
            QueueKind::Priority
        }
    }

    /// A FIFO queue for the unordered strategy, a priority queue for the others.
    pub fn build(strategy: CrawlStrategy) -> (q: Queue)
        ensures
            q.wf(),
            q.kind() == QueueBuilder::build_kind(strategy),
            q.entries().len() == 0,
            q.visited() == Set::<Seq<char>>::empty(),
    {
        let kind = match strategy {
            CrawlStrategy::Basic => QueueKind::Fifo,
            _ => QueueKind::Priority,
        };
        Queue::new(kind)
    }
}

/// Priorities never rise from one entry to the next.
pub open spec fn sorted_by_priority(s: Seq<Request>) -> bool {
    forall|i: int, j: int| 0 <= i < j < s.len() ==> s[i].priority >= s[j].priority
}

/// What `push` does: an entry whose URL was visited is dropped; otherwise a FIFO
/// queue appends it, and a priority queue places it after every entry of priority
/// at least its own and before the others.
pub open spec fn pushed(before: Queue, after: Queue, item: Request) -> bool {
    &&& after.kind() == before.kind()
    &&& after.visited() == before.visited()
    &&& if before.visited().contains(item.url@) {
        after.entries() == before.entries()
    } else if before.kind() == QueueKind::Fifo {
        after.entries() == before.entries().push(item)
    } else {
        exists|k: int|
            0 <= k <= before.entries().len() && after.entries() == before.entries().insert(k, item)
                && (forall|i: int| 0 <= i < k ==> before.entries()[i].priority >= item.priority)
                && (forall|i: int|
                k <= i < before.entries().len() ==> before.entries()[i].priority < item.priority)
    }
}

/// What `pop` does: it takes the first entry whose URL was not visited, marks that
/// URL visited and returns the entry; the entries before it, all visited, are
/// discarded. With no such entry the queue ends empty and nothing is returned.
pub open spec fn popped(before: Queue, after: Queue, r: Option<Request>) -> bool {
    &&& after.kind() == before.kind()
    &&& match r {
        None => {
            &&& after.entries().len() == 0
            &&& after.visited() == before.visited()
            &&& forall|i: int|
                0 <= i < before.entries().len() ==> before.visited().contains(
                    #[trigger] before.entries()[i].url@,
                )
        },
        Some(req) => exists|k: int|
            0 <= k < before.entries().len() && before.entries()[k] == req && !before.visited().contains(
                req.url@,
            ) && (forall|i: int| 0 <= i < k ==> before.visited().contains(#[trigger] before.entries()[i].url@))
                && after.entries() == before.entries().subrange(k + 1, before.entries().len() as int)
                && after.visited() == before.visited().insert(req.url@),
    }
}


/// One call on a queue, with what it returned.
pub enum QueueCall {
    Push(Request),
    Pop(Option<Request>),
}

/// `after` is `before` after `call`.
pub open spec fn queue_call(before: Queue, after: Queue, call: QueueCall) -> bool {
    match call {
        QueueCall::Push(item) => pushed(before, after, item),
        QueueCall::Pop(r) => popped(before, after, r),
    }
}

/// The URL that a call returned, if it was a `pop` that returned a request.
pub open spec fn popped_url(call: QueueCall) -> Option<Seq<char>> {
    match call {
        QueueCall::Pop(Some(req)) => Some(req.url@),
        _ => None,
    }
}

/// Along a run of calls, the visited set only grows.
proof fn lemma_visited_grows(states: Seq<Queue>, calls: Seq<QueueCall>, a: int, b: int)
    requires
        states.len() == calls.len() + 1,
        forall|k: int| 0 <= k < calls.len() ==> queue_call(states[k], states[k + 1], #[trigger] calls[k]),
        0 <= a <= b < states.len(),
    ensures
        states[a].visited().subset_of(states[b].visited()),
    decreases b - a,
{
    if a < b {
        lemma_visited_grows(states, calls, a, b - 1);
        assert(queue_call(states[b - 1], states[b], calls[b - 1]));
    }
}

/// Along any run of pushes and pops, two pops never return requests for the same URL,
/// however often that URL was pushed.
pub proof fn pop_never_repeats_url(states: Seq<Queue>, calls: Seq<QueueCall>, i: int, j: int)
    requires
        states.len() == calls.len() + 1,
        forall|k: int| 0 <= k < calls.len() ==> queue_call(states[k], states[k + 1], #[trigger] calls[k]),
        0 <= i < j < calls.len(),
        popped_url(calls[i]) is Some,
        popped_url(calls[j]) is Some,
    ensures
        popped_url(calls[i]) != popped_url(calls[j]),
{
    assert(queue_call(states[i], states[i + 1], calls[i]));
    assert(queue_call(states[j], states[j + 1], calls[j]));
    lemma_visited_grows(states, calls, i + 1, j);
}

impl Queue {
    /// The entries, in the order in which `pop` looks at them.
    pub closed spec fn entries(self) -> Seq<Request> {
        self.queue@
    }

    /// The URLs that `pop` has returned.
    pub closed spec fn visited(self) -> Set<Seq<char>> {
        Set::new(|u: Seq<char>| exists|i: int| 0 <= i < self.visited@.len() && self.visited@[i]@ == u)
    }

    pub closed spec fn kind(self) -> QueueKind {
        self.kind
    }

    /// A priority queue keeps its entries sorted by priority.
    pub closed spec fn wf(self) -> bool {
        self.kind == QueueKind::Priority ==> sorted_by_priority(self.queue@)
    }

    /// An empty queue of the given kind.
    pub fn new(kind: QueueKind) -> (q: Queue)
        ensures
            q.wf(),
            q.kind() == kind,
            q.entries().len() == 0,
            q.visited() == Set::<Seq<char>>::empty(),
    {
        let q = Queue { kind, queue: VecDeque::new(), visited: Vec::new() };
        assert(q.visited() =~= Set::<Seq<char>>::empty());
        q
    }

    /// Whether `pop` has returned a request for `url`.
    pub fn is_visited(&self, url: &String) -> (r: bool)
        ensures
            r == self.visited().contains(url@),
    {
        let mut i: usize = 0;
        while i < self.visited.len()
            invariant
                i <= self.visited@.len(),
                forall|j: int| 0 <= j < i ==> self.visited@[j]@ != url@,
            decreases self.visited@.len() - i,
        {
            if self.visited[i] == *url {
                return true;
            }
            i = i + 1;
        }
        false
    }

    /// Adds a request unless its URL was visited.
    pub fn push(&mut self, item: Request)
        requires
            old(self).wf(),
        ensures
            final(self).wf(),
            pushed(*old(self), *final(self), item),
    {
        if self.is_visited(&item.url) {
            return;
        }
        match self.kind {
            QueueKind::Fifo => {
                let ghost old_q = *self;
                self.queue.push_back(item);
                assert(self.visited() =~= old_q.visited());
            },
            QueueKind::Priority => {
                let ghost old_entries = self.queue@;
                let mut k: usize = 0;
                while k < self.queue.len() && self.queue[k].priority >= item.priority
                    invariant
                        k <= self.queue@.len(),
                        self.queue@ == old_entries,
                        forall|i: int| 0 <= i < k ==> self.queue@[i].priority >= item.priority,
                    decreases self.queue@.len() - k,
                {
                    k = k + 1;
                }
                proof {
                    assert forall|i: int| k <= i < old_entries.len() implies old_entries[i].priority
                        < item.priority by {
                        if i > k {
                            assert(old_entries[k as int].priority >= old_entries[i].priority);
                        }
                    }
                }
                let ghost k_pos = k as int;
                let ghost before = *self;
                self.queue.insert(k, item);
                proof {
                    assert(self.visited() =~= before.visited());
                    assert(0 <= k_pos <= before.entries().len() && self.entries() == before.entries().insert(k_pos, item)
                        && (forall|i: int| 0 <= i < k_pos ==> before.entries()[i].priority >= item.priority)
                        && (forall|i: int| k_pos <= i < before.entries().len() ==> before.entries()[i].priority < item.priority));
                    assert forall|i: int, j: int|
                        0 <= i < j < self.queue@.len() implies self.queue@[i].priority
                        >= self.queue@[j].priority by {
                        if i < k && j > k {
                            assert(old_entries[i].priority >= old_entries[j - 1].priority);
                        }
                        if i > k {
                            assert(old_entries[i - 1].priority >= old_entries[j - 1].priority);
                        }
                        if i < k && j < k {
                            assert(old_entries[i].priority >= old_entries[j].priority);
                        }
                    }
                }
            },
        }
    }

    /// Takes the first entry whose URL was not visited, discarding visited ones on
    /// the way, and marks its URL visited.
    pub fn pop(&mut self) -> (r: Option<Request>)
        requires
            old(self).wf(),
        ensures
            final(self).wf(),
            popped(*old(self), *final(self), r),
            r is Some && old(self).kind() == QueueKind::Priority ==> forall|i: int|
                0 <= i < final(self).entries().len() ==> final(self).entries()[i].priority
                    <= r->0.priority,
    {
        let ghost old_q = *self;
        let total: usize = self.queue.len();
        let mut skipped: usize = 0;
        loop
            invariant
                old_q.queue@.len() == total,
                *old(self) == old_q,
                self.kind == old_q.kind,
                self.visited == old_q.visited,
                skipped <= old_q.queue@.len(),
                self.queue@ == old_q.queue@.subrange(skipped as int, old_q.queue@.len() as int),
                forall|i: int| 0 <= i < skipped ==> old_q.visited().contains(#[trigger] old_q.entries()[i].url@),
                old_q.wf(),
            decreases self.queue@.len(),
        {
            match self.queue.pop_front() {
                Some(item) => {
                    if !self.is_visited(&item.url) {
                        let url = item.url.clone();
                        self.visited.push(url);
                        proof {
                            assert(old_q.queue@[skipped as int] == item);
                            assert(self.visited() =~= old_q.visited().insert(item.url@)) by {
                                assert forall|u: Seq<char>| self.visited().contains(u) == old_q.visited().insert(item.url@).contains(u) by {
                                    if old_q.visited().contains(u) {
                                        let j = choose|j: int| 0 <= j < old_q.visited@.len() && old_q.visited@[j]@ == u;
                                        assert(self.visited@[j]@ == u);
                                    }
                                    if u == item.url@ {
                                        assert(self.visited@[old_q.visited@.len() as int]@ == u);
                                    }
                                }
                            }
                            if old_q.kind == QueueKind::Priority {
                                assert forall|i: int| 0 <= i < self.queue@.len() implies self.queue@[i].priority <= item.priority by {
                                    assert(old_q.queue@[skipped as int].priority >= old_q.queue@[skipped + 1 + i].priority);
                                }
                            }
                        }
                        assert(self.queue@ =~= old_q.queue@.subrange(skipped + 1, old_q.queue@.len() as int));
                        assert(old_q.entries()[skipped as int] == item);
                        assert(self.entries() == old_q.entries().subrange(skipped + 1, old_q.entries().len() as int));
                        let ghost k = skipped as int;
                        assert(0 <= k < old_q.entries().len() && old_q.entries()[k] == item
                            && !old_q.visited().contains(item.url@)
                            && (forall|i: int| 0 <= i < k ==> old_q.visited().contains(#[trigger] old_q.entries()[i].url@))
                            && self.entries() == old_q.entries().subrange(k + 1, old_q.entries().len() as int)
                            && self.visited() == old_q.visited().insert(item.url@));
                        assert(self.kind() == old_q.kind());
                        return Some(item);
                    }
                    proof {
                        assert(old_q.queue@[skipped as int] == item);
                    }
                    assert(skipped < total);
                    skipped = skipped + 1;
                },
                None => {
                    assert(skipped == old_q.queue@.len());
                    assert(self.entries().len() == 0);
                    assert(forall|i: int| 0 <= i < old_q.entries().len() ==> old_q.visited().contains(#[trigger] old_q.entries()[i].url@));
                    assert(self.kind() == old_q.kind());
                    assert(self.visited() =~= old_q.visited());
                    return None;
                },
            }
        }
    }

    /// The number of entries, counting those that `pop` will discard.
    pub fn len(&self) -> (r: usize)
        ensures
            r == self.entries().len(),
    {
        self.queue.len()
    }
}

} // verus!
