//! The decisions of the dispatch pool: a fixed set of worker slots, a queue of
//! requests that wait for a worker, and a ticket for every request submitted.
//! The threads that run the workers follow what these functions decide.

use vstd::prelude::*;

verus! {

/// What one worker is doing.
#[derive(Debug, Clone, Copy, PartialEq, Eq, Structural)]
pub enum Slot {
    /// Ready to take a request.
    Idle,
    /// Sending the request with this ticket.
    Busy(u64),
    /// Terminated; it takes no more requests.
    Gone,
}

/// What happened to a newly submitted request.
#[derive(Debug, Clone, Copy, PartialEq, Eq, Structural)]
pub enum Admission {
    /// The request went to an idle worker at once.
    Started { ticket: u64, worker: usize },
    /// Every live worker is busy; the request waits in the queue.
    Waiting { ticket: u64 },
    /// No worker is alive: the request fails at once.
    Unavailable { ticket: u64 },
}

/// What a worker finishing its request leads to.
#[derive(Debug, Clone, Copy, PartialEq, Eq, Structural)]
pub struct Completion {
    /// The ticket that the worker has answered.
    pub done: u64,
    /// The waiting request that the worker takes next, if any.
    pub next: Option<u64>,
}

/// What the loss of a worker leads to.
#[derive(Debug, Clone)]
pub struct Loss {
    /// The request the worker was sending, which now fails.
    pub failed: Option<u64>,
    /// The waiting requests that fail because no live worker is left.
    pub rejected: Vec<u64>,
}

/// The state of the pool as a mathematical value.
pub struct PoolView {
    pub slots: Seq<Slot>,
    pub queue: Seq<u64>,
    /// The ticket that the next request gets; every earlier one has been handed out.
    pub next: u64,
}

impl PoolView {
    pub open spec fn busy_with(self, t: u64) -> bool {
        exists|w: int| 0 <= w < self.slots.len() && self.slots[w] == Slot::Busy(t)
    }

    /// The request with ticket `t` is being sent or waits for a worker.
    pub open spec fn pending(self, t: u64) -> bool {
        self.busy_with(t) || self.queue.contains(t)
    }

    /// The request with ticket `t` was submitted and has been answered.
    pub open spec fn settled(self, t: u64) -> bool {
        t < self.next && !self.pending(t)
    }

    pub open spec fn has_idle(self) -> bool {
        exists|w: int| 0 <= w < self.slots.len() && self.slots[w] == Slot::Idle
    }

    pub open spec fn has_busy(self) -> bool {
        exists|w: int| 0 <= w < self.slots.len() && self.slots[w] is Busy
    }

    pub open spec fn wf(self) -> bool {
        &&& forall|w: int| 0 <= w < self.slots.len() && #[trigger] self.slots[w] is Busy
            ==> self.slots[w]->Busy_0 < self.next
        &&& forall|i: int| 0 <= i < self.queue.len() ==> #[trigger] self.queue[i] < self.next
        &&& forall|a: int, b: int|
            0 <= a < self.slots.len() && 0 <= b < self.slots.len() && a != b
                && #[trigger] self.slots[a] is Busy && #[trigger] self.slots[b] is Busy
                ==> self.slots[a]->Busy_0 != self.slots[b]->Busy_0
        &&& self.queue.no_duplicates()
        &&& forall|i: int| 0 <= i < self.queue.len() ==> !self.busy_with(#[trigger] self.queue[i])
        &&& self.queue.len() > 0 ==> !self.has_idle() && self.has_busy()
    }
}

/// `w` is the lowest-numbered idle worker.
pub open spec fn first_idle(slots: Seq<Slot>, w: int) -> bool {
    &&& 0 <= w < slots.len()
    &&& slots[w] == Slot::Idle
    &&& forall|j: int| 0 <= j < w ==> slots[j] != Slot::Idle
}

/// Submitting a request in state `v` leads to state `n` and admission `a`.
pub open spec fn admitted(v: PoolView, n: PoolView, a: Admission) -> bool {
    &&& n.next == v.next + 1
    &&& match a {
        Admission::Started { ticket, worker } => {
            &&& ticket == v.next
            &&& first_idle(v.slots, worker as int)
            &&& n.slots == v.slots.update(worker as int, Slot::Busy(ticket))
            &&& n.queue == v.queue
        },
        Admission::Waiting { ticket } => {
            &&& ticket == v.next
            &&& !v.has_idle()
            &&& v.has_busy()
            &&& n.slots == v.slots
            &&& n.queue == v.queue.push(ticket)
        },
        Admission::Unavailable { ticket } => {
            &&& ticket == v.next
            &&& !v.has_idle()
            &&& !v.has_busy()
            &&& n.slots == v.slots
            &&& n.queue == v.queue
        },
    }
}

/// The tickets that a step answers.
pub open spec fn answered_on_admission(a: Admission) -> Set<u64> {
    match a {
        Admission::Unavailable { ticket } => set![ticket],
        _ => Set::empty(),
    }
}

/// Going from `v` to `n` answers exactly the requests in `r`: each of them was
/// not answered before and is afterwards, no answered request is pending again,
/// every other pending request is still pending, and no request becomes
/// answered without being in `r`.
pub open spec fn settles(v: PoolView, n: PoolView, r: Set<u64>) -> bool {
    &&& forall|t: u64| #[trigger] r.contains(t) ==> !v.settled(t) && n.settled(t)
    &&& forall|t: u64| #[trigger] v.settled(t) ==> n.settled(t)
    &&& forall|t: u64| #[trigger] v.pending(t) && !r.contains(t) ==> n.pending(t)
    &&& forall|t: u64| #[trigger] n.settled(t) && !v.settled(t) ==> r.contains(t)
}

/// Worker `worker` finishing its request in state `v` leads to state `n` and completion `c`.
pub open spec fn completed(v: PoolView, n: PoolView, worker: int, c: Completion) -> bool {
    &&& v.slots[worker] == Slot::Busy(c.done)
    &&& n.next == v.next
    &&& if v.queue.len() > 0 {
        &&& c.next == Some(v.queue[0])
        &&& n.slots == v.slots.update(worker, Slot::Busy(v.queue[0]))
        &&& n.queue == v.queue.drop_first()
    } else {
        &&& c.next is None
        &&& n.slots == v.slots.update(worker, Slot::Idle)
        &&& n.queue == v.queue
    }
}

/// The loss of worker `worker` in state `v` leads to state `n`, fails the
/// request `failed` it was sending, and rejects the waiting requests `rejected`.
pub open spec fn lost(v: PoolView, n: PoolView, worker: int, failed: Option<u64>, rejected: Seq<u64>) -> bool {
    let slots = v.slots.update(worker, Slot::Gone);
    let still_busy = exists|k: int| 0 <= k < slots.len() && slots[k] is Busy;
    &&& failed == (if v.slots[worker] is Busy {
        Some(v.slots[worker]->Busy_0)
    } else {
        None::<u64>
    })
    &&& n.next == v.next
    &&& n.slots == slots
    &&& if still_busy {
        rejected.len() == 0 && n.queue == v.queue
    } else {
        rejected == v.queue && n.queue.len() == 0
    }
}

pub open spec fn answered_on_loss(failed: Option<u64>, rejected: Seq<u64>) -> Set<u64> {
    match failed {
        Some(t) => rejected.to_set().insert(t),
        None => rejected.to_set(),
    }
}

/// How many workers are sending a request.
pub open spec fn busy_count(slots: Seq<Slot>) -> nat
    decreases slots.len(),
{
    if slots.len() == 0 {
        0
    } else {
        busy_count(slots.drop_last()) + if slots.last() is Busy {
            1nat
        } else {
            0nat
        }
    }
}

proof fn busy_count_at_most_len(slots: Seq<Slot>)
    ensures
        busy_count(slots) <= slots.len(),
    decreases slots.len(),
{
    if slots.len() > 0 {
        busy_count_at_most_len(slots.drop_last());
    }
}

/// Concurrency bound: however many requests have been submitted, at most as
/// many are being sent at once as the pool has workers, each worker sends one
/// request at a time, and no two workers send the same request.
pub proof fn concurrency_bound(v: PoolView)
    requires
        v.wf(),
    ensures
        busy_count(v.slots) <= v.slots.len(),
        forall|a: int, b: int|
            0 <= a < v.slots.len() && 0 <= b < v.slots.len() && a != b && v.slots[a] is Busy
                && v.slots[b] is Busy ==> v.slots[a] != v.slots[b],
{
    busy_count_at_most_len(v.slots);
    assert forall|a: int, b: int|
        0 <= a < v.slots.len() && 0 <= b < v.slots.len() && a != b && v.slots[a] is Busy
            && v.slots[b] is Busy implies v.slots[a] != v.slots[b] by {
        assert(v.slots[a]->Busy_0 != v.slots[b]->Busy_0);
    }
}

/// A run of the pool: each step goes from one state to the next and answers
/// the requests of its set.
pub open spec fn is_run(views: Seq<PoolView>, answers: Seq<Set<u64>>) -> bool {
    &&& views.len() == answers.len() + 1
    &&& forall|k: int| 0 <= k < answers.len() ==> settles(views[k], views[k + 1], #[trigger] answers[k])
}

proof fn settled_stays(views: Seq<PoolView>, answers: Seq<Set<u64>>, i: int, j: int, t: u64)
    requires
        is_run(views, answers),
        0 <= i <= j < views.len(),
        views[i].settled(t),
    ensures
        views[j].settled(t),
    decreases j - i,
{
    if i < j {
        settled_stays(views, answers, i, j - 1, t);
        assert(settles(views[j - 1], views[j], answers[j - 1]));
    }
}

/// A request is answered at most once: along a run of the pool, no ticket is
/// answered by two steps.
pub proof fn answered_at_most_once(views: Seq<PoolView>, answers: Seq<Set<u64>>, i: int, j: int, t: u64)
    requires
        is_run(views, answers),
        0 <= i < j < answers.len(),
        answers[i].contains(t),
    ensures
        !answers[j].contains(t),
{
    assert(settles(views[i], views[i + 1], answers[i]));
    settled_stays(views, answers, i + 1, j, t);
    assert(settles(views[j], views[j + 1], answers[j]));
}

/// A request is never dropped unanswered: a request that was not answered at
/// the start of a run and is at its end was answered by one of its steps.
pub proof fn answered_at_least_once(views: Seq<PoolView>, answers: Seq<Set<u64>>, t: u64)
    requires
        is_run(views, answers),
        !views[0].settled(t),
        views.last().settled(t),
    ensures
        exists|k: int| 0 <= k < answers.len() && #[trigger] answers[k].contains(t),
    decreases answers.len(),
{
    let m = answers.len() as int;
    assert(m > 0);
    if views[m - 1].settled(t) {
        let vs = views.drop_last();
        let an = answers.drop_last();
        assert forall|k: int| 0 <= k < an.len() implies settles(vs[k], vs[k + 1], #[trigger] an[k]) by {
            assert(settles(views[k], views[k + 1], answers[k]));
        }
        answered_at_least_once(vs, an, t);
        let k = choose|k: int| 0 <= k < an.len() && #[trigger] an[k].contains(t);
        assert(answers[k].contains(t));
    } else {
        assert(settles(views[m - 1], views[m], answers[m - 1]));
        assert(answers[m - 1].contains(t));
    }
}

/// Dispatch decisions depend on the pool's state alone: two submissions in the
/// same state lead to the same state and the same admission, whichever handle
/// of the pool they came through.
pub proof fn dispatch_determined_by_state(
    v: PoolView,
    n1: PoolView,
    a1: Admission,
    n2: PoolView,
    a2: Admission,
)
    requires
        admitted(v, n1, a1),
        admitted(v, n2, a2),
    ensures
        n1 == n2,
        a1 == a2,
{
    match a1 {
        Admission::Started { ticket: t1, worker: w1 } => {
            match a2 {
                Admission::Started { ticket: t2, worker: w2 } => {
                    if w1 < w2 {
                        assert(v.slots[w1 as int] == Slot::Idle);
                    } else if w2 < w1 {
                        assert(v.slots[w2 as int] == Slot::Idle);
                    }
                },
                _ => {
                    assert(v.slots[w1 as int] == Slot::Idle);
                },
            }
        },
        _ => {
            if let Admission::Started { ticket: t2, worker: w2 } = a2 {
                assert(v.slots[w2 as int] == Slot::Idle);
            }
        },
    }
}

/// Completions depend on the pool's state alone: the same worker finishing in
/// the same state leads to the same state and the same completion.
pub proof fn completion_determined_by_state(
    v: PoolView,
    worker: int,
    n1: PoolView,
    c1: Completion,
    n2: PoolView,
    c2: Completion,
)
    requires
        completed(v, n1, worker, c1),
        completed(v, n2, worker, c2),
    ensures
        n1 == n2,
        c1 == c2,
{
}

/// A send that ends, failed or not, leaves the pool serving: its worker is
/// idle again or takes the next waiting request, no other worker changes, and
/// later submissions still find a live worker.
pub proof fn finished_worker_stays_live(v: PoolView, n: PoolView, worker: int, c: Completion)
    requires
        0 <= worker < v.slots.len(),
        completed(v, n, worker, c),
    ensures
        n.slots.len() == v.slots.len(),
        n.slots[worker] != Slot::Gone,
        forall|k: int| 0 <= k < v.slots.len() && k != worker ==> n.slots[k] == v.slots[k],
        n.has_idle() || n.has_busy(),
{
    if n.slots[worker] is Busy {
        assert(n.has_busy());
    } else {
        assert(n.has_idle());
    }
}

/// Dispatch state of a pool of workers.
pub struct Dispatcher {
    slots: Vec<Slot>,
    queue: Vec<u64>,
    next_ticket: u64,
}

impl View for Dispatcher {
    type V = PoolView;

    closed spec fn view(&self) -> PoolView {
        PoolView { slots: self.slots@, queue: self.queue@, next: self.next_ticket }
    }
}

impl Dispatcher {
    pub open spec fn wf(&self) -> bool {
        self@.wf()
    }

    /// A pool of `worker_count` idle workers that has handed out no ticket.
    pub fn new(worker_count: u16) -> (r: Dispatcher)
        ensures
            r.wf(),
            r@.slots == Seq::new(worker_count as nat, |i: int| Slot::Idle),
            r@.queue.len() == 0,
            r@.next == 0,
    {
        let mut slots: Vec<Slot> = Vec::new();
        let mut i: u16 = 0;
        while i < worker_count
            invariant
                i <= worker_count,
                slots@ == Seq::new(i as nat, |k: int| Slot::Idle),
            decreases worker_count - i,
        {
            slots.push(Slot::Idle);
            i = i + 1;
            assert(slots@ =~= Seq::new(i as nat, |k: int| Slot::Idle));
        }
        let r = Dispatcher { slots, queue: Vec::new(), next_ticket: 0 };
        assert(r@.wf());
        r
    }

    pub fn worker_count(&self) -> (r: usize)
        ensures
            r == self@.slots.len(),
    {
        self.slots.len()
    }

    /// What worker `worker` is doing.
    pub fn slot(&self, worker: usize) -> (r: Slot)
        requires
            worker < self@.slots.len(),
        ensures
            r == self@.slots[worker as int],
    {
        self.slots[worker]
    }

    /// How many requests wait for a worker.
    pub fn waiting(&self) -> (r: usize)
        ensures
            r == self@.queue.len(),
    {
        self.queue.len()
    }

    /// How many workers are sending a request.
    pub fn in_flight(&self) -> (r: usize)
        ensures
            r == busy_count(self@.slots),
    {
        let mut count: usize = 0;
        let mut i: usize = 0;
        while i < self.slots.len()
            invariant
                i <= self.slots@.len(),
                count == busy_count(self.slots@.take(i as int)),
            decreases self.slots@.len() - i,
        {
            proof {
                busy_count_at_most_len(self.slots@.take(i as int));
                assert(self.slots@.take(i + 1).drop_last() =~= self.slots@.take(i as int));
            }
            if let Slot::Busy(_) = self.slots[i] {
                count = count + 1;
            }
            i = i + 1;
        }
        assert(self.slots@.take(i as int) =~= self.slots@);
        count
    }

    /// Whether another request can get a ticket.
    pub fn can_submit(&self) -> (r: bool)
        ensures
            r == (self@.next < u64::MAX),
    {
        self.next_ticket < u64::MAX
    }

    /// Hands a new request its ticket and assigns it to the lowest-numbered
    /// idle worker, or queues it behind the busy ones, or fails it at once when
    /// no worker is alive.
    pub fn submit(&mut self) -> (a: Admission)
        requires
            old(self).wf(),
            old(self)@.next < u64::MAX,
        ensures
            final(self).wf(),
            admitted(old(self)@, final(self)@, a),
            settles(old(self)@, final(self)@, answered_on_admission(a)),
    {
        let ghost v = self@;
        let t = self.next_ticket;
        let mut w: usize = 0;
        let mut busy_seen = false;
        while w < self.slots.len() && self.slots[w] != Slot::Idle
            invariant
                self@ == v,
                w <= self.slots@.len(),
                forall|j: int| 0 <= j < w ==> self.slots@[j] != Slot::Idle,
                busy_seen <==> exists|j: int| 0 <= j < w && #[trigger] self.slots@[j] is Busy,
            decreases self.slots@.len() - w,
        {
            if self.slots[w] != Slot::Gone {
                busy_seen = true;
            }
            w = w + 1;
        }
        self.next_ticket = t + 1;
        if w < self.slots.len() {
            self.slots.set(w, Slot::Busy(t));
            let a = Admission::Started { ticket: t, worker: w };
            proof {
                let n = self@;
                assert forall|x: u64| #[trigger] v.pending(x) implies n.pending(x) by {
                    if v.busy_with(x) {
                        let k = choose|k: int| 0 <= k < v.slots.len() && v.slots[k] == Slot::Busy(x);
                        assert(n.slots[k] == Slot::Busy(x));
                    }
                }
                assert(n.busy_with(t)) by {
                    assert(n.slots[w as int] == Slot::Busy(t));
                }
                assert forall|x: u64| #[trigger] v.settled(x) implies n.settled(x) by {
                    if n.busy_with(x) {
                        let k = choose|k: int| 0 <= k < n.slots.len() && n.slots[k] == Slot::Busy(x);
                        if k != w {
                            assert(v.slots[k] == Slot::Busy(x));
                        }
                    }
                }
                assert forall|i: int| 0 <= i < n.queue.len() implies !n.busy_with(#[trigger] n.queue[i]) by {
                    if n.busy_with(n.queue[i]) {
                        let k = choose|k: int| 0 <= k < n.slots.len() && n.slots[k] == Slot::Busy(n.queue[i]);
                        if k != w {
                            assert(v.slots[k] == Slot::Busy(n.queue[i]));
                        }
                    }
                }
            }
            a
        } else if busy_seen {
            self.queue.push(t);
            let a = Admission::Waiting { ticket: t };
            proof {
                let n = self@;
                assert forall|x: u64| #[trigger] v.pending(x) implies n.pending(x) by {
                    if v.queue.contains(x) {
                        let i = choose|i: int| 0 <= i < v.queue.len() && v.queue[i] == x;
                        assert(n.queue[i] == x);
                    }
                }
                assert(n.queue[v.queue.len() as int] == t);
                assert forall|x: u64| #[trigger] v.settled(x) implies n.settled(x) by {
                    if n.queue.contains(x) {
                        let i = choose|i: int| 0 <= i < n.queue.len() && n.queue[i] == x;
                        if i < v.queue.len() {
                            assert(v.queue[i] == x);
                        }
                    }
                }
                assert(!v.busy_with(t));
                assert(!v.queue.contains(t));
                assert forall|i: int| 0 <= i < n.queue.len() implies !n.busy_with(#[trigger] n.queue[i]) by {
                    if i < v.queue.len() {
                        assert(n.queue[i] == v.queue[i]);
                    }
                }
                assert(n.has_busy());
            }
            a
        } else {
            let a = Admission::Unavailable { ticket: t };
            proof {
                let n = self@;
                assert(!v.has_busy());
                assert(v.queue.len() == 0);
                assert(!v.busy_with(t));
                assert(n.settled(t));
                assert(answered_on_admission(a) =~= set![t]);
            }
            a
        }
    }

    /// Worker `worker` has answered its request: it takes the oldest waiting
    /// request, if there is one, and becomes idle otherwise.
    pub fn finish(&mut self, worker: usize) -> (c: Completion)
        requires
            old(self).wf(),
            worker < old(self)@.slots.len(),
            old(self)@.slots[worker as int] is Busy,
        ensures
            final(self).wf(),
            completed(old(self)@, final(self)@, worker as int, c),
            settles(old(self)@, final(self)@, set![c.done]),
    {
        let ghost v = self@;
        let done = match self.slots[worker] {
            Slot::Busy(t) => t,
            _ => 0,
        };
        if self.queue.len() > 0 {
            let t = self.queue.remove(0);
            self.slots.set(worker, Slot::Busy(t));
            proof {
                let n = self@;
                assert(n.queue =~= v.queue.drop_first());
                assert(v.queue[0] == t);
                assert forall|x: u64| #[trigger] v.pending(x) && x != done implies n.pending(x) by {
                    if v.busy_with(x) {
                        let k = choose|k: int| 0 <= k < v.slots.len() && v.slots[k] == Slot::Busy(x);
                        assert(k != worker);
                        assert(n.slots[k] == Slot::Busy(x));
                    } else {
                        let i = choose|i: int| 0 <= i < v.queue.len() && v.queue[i] == x;
                        if i == 0 {
                            assert(n.slots[worker as int] == Slot::Busy(x));
                        } else {
                            assert(n.queue[i - 1] == x);
                        }
                    }
                }
                assert forall|x: u64| n.pending(x) implies #[trigger] v.pending(x) && x != done by {
                    if n.busy_with(x) {
                        let k = choose|k: int| 0 <= k < n.slots.len() && n.slots[k] == Slot::Busy(x);
                        if k == worker {
                            assert(v.queue[0] == x);
                            assert(!v.busy_with(x));
                        } else {
                            assert(v.slots[k] == Slot::Busy(x));
                        }
                    } else {
                        let i = choose|i: int| 0 <= i < n.queue.len() && n.queue[i] == x;
                        assert(v.queue[i + 1] == x);
                        assert(!v.busy_with(x));
                    }
                }
                assert(v.busy_with(done));
                assert forall|i: int| 0 <= i < n.queue.len() implies !n.busy_with(#[trigger] n.queue[i]) by {
                    let x = n.queue[i];
                    assert(v.queue[i + 1] == x);
                    if n.busy_with(x) {
                        let k = choose|k: int| 0 <= k < n.slots.len() && n.slots[k] == Slot::Busy(x);
                        if k == worker {
                            assert(v.queue[0] == x);
                        } else {
                            assert(v.slots[k] == Slot::Busy(x));
                        }
                    }
                }
                assert forall|a: int, b: int|
                    0 <= a < n.slots.len() && 0 <= b < n.slots.len() && a != b
                        && #[trigger] n.slots[a] is Busy && #[trigger] n.slots[b] is Busy
                        implies n.slots[a]->Busy_0 != n.slots[b]->Busy_0 by {
                    if a == worker {
                        assert(v.slots[b] == Slot::Busy(n.slots[b]->Busy_0));
                    } else if b == worker {
                        assert(v.slots[a] == Slot::Busy(n.slots[a]->Busy_0));
                    }
                }
                if n.queue.len() > 0 {
                    assert(n.slots[worker as int] is Busy);
                    assert forall|k: int| 0 <= k < n.slots.len() implies n.slots[k] != Slot::Idle by {
                        if k != worker {
                            assert(v.slots[k] == n.slots[k]);
                        }
                    }
                }
            }
            Completion { done, next: Some(t) }
        } else {
            self.slots.set(worker, Slot::Idle);
            proof {
                let n = self@;
                assert forall|x: u64| #[trigger] v.pending(x) && x != done implies n.pending(x) by {
                    let k = choose|k: int| 0 <= k < v.slots.len() && v.slots[k] == Slot::Busy(x);
                    assert(k != worker);
                    assert(n.slots[k] == Slot::Busy(x));
                }
                assert forall|x: u64| n.pending(x) implies #[trigger] v.pending(x) && x != done by {
                    let k = choose|k: int| 0 <= k < n.slots.len() && n.slots[k] == Slot::Busy(x);
                    assert(v.slots[k] == Slot::Busy(x));
                }
                assert(v.busy_with(done));
            }
            Completion { done, next: None }
        }
    }

    /// Worker `worker` has terminated: the request it was sending fails, and
    /// when no worker is left sending, the waiting requests fail too, since no
    /// live worker would ever take them.
    pub fn lose(&mut self, worker: usize) -> (l: Loss)
        requires
            old(self).wf(),
            worker < old(self)@.slots.len(),
            old(self)@.slots[worker as int] != Slot::Gone,
        ensures
            final(self).wf(),
            lost(old(self)@, final(self)@, worker as int, l.failed, l.rejected@),
            settles(old(self)@, final(self)@, answered_on_loss(l.failed, l.rejected@)),
    {
        let ghost v = self@;
        let failed = match self.slots[worker] {
            Slot::Busy(t) => Some(t),
            _ => None,
        };
        self.slots.set(worker, Slot::Gone);
        let mut k: usize = 0;
        let mut still_busy = false;
        while k < self.slots.len()
            invariant
                self@.slots == v.slots.update(worker as int, Slot::Gone),
                self@.queue == v.queue,
                self@.next == v.next,
                k <= self.slots@.len(),
                still_busy <==> exists|j: int| 0 <= j < k && #[trigger] self.slots@[j] is Busy,
            decreases self.slots@.len() - k,
        {
            if let Slot::Busy(_) = self.slots[k] {
                still_busy = true;
            }
            k = k + 1;
        }
        let rejected = if still_busy {
            Vec::new()
        } else {
            let mut q: Vec<u64> = Vec::new();
            std::mem::swap(&mut q, &mut self.queue);
            q
        };
        let l = Loss { failed, rejected };
        proof {
            let n = self@;
            let r = answered_on_loss(l.failed, l.rejected@);
            assert(lost(v, n, worker as int, l.failed, l.rejected@));
            assert forall|x: u64| n.busy_with(x) implies v.busy_with(x) && failed != Some(x) by {
                let j = choose|j: int| 0 <= j < n.slots.len() && n.slots[j] == Slot::Busy(x);
                assert(v.slots[j] == Slot::Busy(x));
            }
            assert forall|x: u64| #[trigger] r.contains(x) implies !v.settled(x) && n.settled(x) by {
                if failed == Some(x) {
                    assert(v.slots[worker as int] == Slot::Busy(x));
                    assert(v.busy_with(x));
                } else {
                    assert(l.rejected@.contains(x));
                    assert(v.queue.contains(x));
                    assert(!n.queue.contains(x));
                }
            }
            assert forall|x: u64| #[trigger] v.pending(x) && !r.contains(x) implies n.pending(x) by {
                if v.busy_with(x) {
                    let j = choose|j: int| 0 <= j < v.slots.len() && v.slots[j] == Slot::Busy(x);
                    if j == worker {
                        assert(r.contains(x));
                    }
                    assert(n.slots[j] == Slot::Busy(x));
                } else if !still_busy {
                    assert(l.rejected@.contains(x));
                }
            }
            assert(n.queue.len() > 0 ==> n.has_busy());
            assert forall|a: int, b: int|
                0 <= a < n.slots.len() && 0 <= b < n.slots.len() && a != b
                    && #[trigger] n.slots[a] is Busy && #[trigger] n.slots[b] is Busy
                    implies n.slots[a]->Busy_0 != n.slots[b]->Busy_0 by {
                assert(v.slots[a] == n.slots[a]);
                assert(v.slots[b] == n.slots[b]);
            }
            assert(n.queue.len() > 0 ==> !n.has_idle()) by {
                if n.queue.len() > 0 {
                    assert forall|j: int| 0 <= j < n.slots.len() implies n.slots[j] != Slot::Idle by {
                        if j != worker {
                            assert(v.slots[j] == n.slots[j]);
                        }
                    }
                }
            }
        }
        l
    }
}

} // verus!
