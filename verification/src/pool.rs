//! A fixed-capacity pool of exclusively-owned engine handles.
//!
//! The pool hands out handle identifiers: each identifier stands for one
//! external engine process, owned by exactly one caller between `acquire`
//! and `recycle`. The pool itself never touches a process; the surrounding
//! runtime spawns and destroys processes as the returned outcomes and
//! effects direct. Handles are created lazily: a grant with `fresh` set
//! tells the caller to spawn the process, so a handle destroyed after a
//! failure is replaced on a later acquire rather than eagerly.

use vstd::prelude::*;

verus! {

/// What a caller is told when asking the pool for a handle.
#[derive(PartialEq, Eq, Structural, Clone, Copy, Debug)]
pub enum AcquireOutcome {
    /// Exclusive ownership of handle `id`. When `fresh` is set the
    /// underlying process does not exist yet and must be spawned.
    Granted { id: u64, fresh: bool },
    /// No handle is free; the caller waits in arrival order under `ticket`.
    Queued { ticket: u64 },
    /// No handle is free and the waiter queue is at its depth limit.
    Exhausted,
    /// The pool has been shut down.
    Closed,
}

/// How an acquired handle comes back to the pool.
#[derive(PartialEq, Eq, Structural, Clone, Copy, Debug)]
pub enum HandleOutcome {
    /// The handle ended in a known-good idle state.
    Good,
    /// The handle crashed, hung, or desynchronized.
    Broken,
}

/// What the surrounding runtime must do with the handle after a recycle.
#[derive(PartialEq, Eq, Structural, Clone, Copy, Debug)]
pub enum RecycleEffect {
    /// The handle was reset to baseline and returned to the idle set.
    Idled,
    /// The handle left the pool; its process must be destroyed.
    Destroyed,
}

/// The pool's bookkeeping, as mathematical values.
#[verifier::ext_equal]
pub ghost struct PoolModel {
    pub capacity: int,
    pub queue_depth: int,
    pub idle: Seq<u64>,
    pub busy: Seq<u64>,
    pub waiters: Seq<u64>,
    pub closed: bool,
    pub next_id: int,
    pub next_ticket: int,
}

/// The pool invariant: never more handles than the capacity, each handle
/// owned at most once, the waiter queue within its depth.
pub open spec fn pool_wf(m: PoolModel) -> bool {
    &&& 0 <= m.capacity
    &&& 0 <= m.queue_depth
    &&& m.idle.len() + m.busy.len() <= m.capacity
    &&& m.waiters.len() <= m.queue_depth
    &&& m.idle.no_duplicates()
    &&& m.busy.no_duplicates()
    &&& (forall|h: u64| m.idle.contains(h) ==> !m.busy.contains(h))
    &&& (forall|h: u64| #[trigger] m.idle.contains(h) ==> (h as int) < m.next_id)
    &&& (forall|h: u64| #[trigger] m.busy.contains(h) ==> (h as int) < m.next_id)
    &&& 0 <= m.next_id <= u64::MAX
    &&& 0 <= m.next_ticket <= u64::MAX
}

/// The acquisition decision: an idle handle if one exists, else a lazily
/// created fresh handle while capacity remains, else a queue slot while
/// the queue has room, else failure. A closed pool refuses outright.
pub open spec fn spec_acquire(m: PoolModel) -> (PoolModel, AcquireOutcome) {
    if m.closed {
        (m, AcquireOutcome::Closed)
    } else if m.idle.len() > 0 {
        (
            PoolModel { idle: m.idle.drop_last(), busy: m.busy.push(m.idle.last()), ..m },
            AcquireOutcome::Granted { id: m.idle.last(), fresh: false },
        )
    } else if m.busy.len() < m.capacity && m.next_id < u64::MAX {
        (
            PoolModel { busy: m.busy.push(m.next_id as u64), next_id: m.next_id + 1, ..m },
            AcquireOutcome::Granted { id: m.next_id as u64, fresh: true },
        )
    } else if m.waiters.len() < m.queue_depth && m.next_ticket < u64::MAX {
        (
            PoolModel {
                waiters: m.waiters.push(m.next_ticket as u64),
                next_ticket: m.next_ticket + 1,
                ..m
            },
            AcquireOutcome::Queued { ticket: m.next_ticket as u64 },
        )
    } else {
        (m, AcquireOutcome::Exhausted)
    }
}

pub open spec fn acquire_next(m: PoolModel) -> PoolModel {
    spec_acquire(m).0
}

pub open spec fn acquire_outcome(m: PoolModel) -> AcquireOutcome {
    spec_acquire(m).1
}

pub open spec fn is_granted(r: AcquireOutcome) -> bool {
    r is Granted
}

pub open spec fn granted_id(r: AcquireOutcome) -> u64 {
    r->Granted_id
}

/// The recycling decision: a good handle of an open pool is reset and goes
/// back to the idle set; a broken handle, or any handle of a closed pool,
/// leaves the pool and its process is destroyed.
pub open spec fn spec_recycle(m: PoolModel, id: u64, outcome: HandleOutcome) -> PoolModel {
    let drained = PoolModel { busy: m.busy.remove_value(id), ..m };
    if outcome is Good && !m.closed {
        PoolModel { idle: drained.idle.push(id), ..drained }
    } else {
        drained
    }
}

pub open spec fn spec_recycle_effect(m: PoolModel, outcome: HandleOutcome) -> RecycleEffect {
    if outcome is Good && !m.closed {
        RecycleEffect::Idled
    } else {
        RecycleEffect::Destroyed
    }
}

/// The pool itself. Fields mirror `PoolModel` one for one.
pub struct ProcessPool {
    pub capacity: usize,
    pub queue_depth: usize,
    pub idle: Vec<u64>,
    pub busy: Vec<u64>,
    pub waiters: Vec<u64>,
    pub closed: bool,
    pub next_id: u64,
    pub next_ticket: u64,
}

impl View for ProcessPool {
    type V = PoolModel;

    open spec fn view(&self) -> PoolModel {
        PoolModel {
            capacity: self.capacity as int,
            queue_depth: self.queue_depth as int,
            idle: self.idle@,
            busy: self.busy@,
            waiters: self.waiters@,
            closed: self.closed,
            next_id: self.next_id as int,
            next_ticket: self.next_ticket as int,
        }
    }
}

proof fn lemma_push_facts(s: Seq<u64>, x: u64)
    ensures
        forall|h: u64| #[trigger] s.push(x).contains(h) <==> (s.contains(h) || h == x),
        (s.no_duplicates() && !s.contains(x)) ==> s.push(x).no_duplicates(),
{
    assert forall|h: u64| #[trigger] s.push(x).contains(h) implies (s.contains(h) || h == x) by {
        let j = choose|j: int| 0 <= j < s.push(x).len() && s.push(x)[j] == h;
        if j < s.len() {
            assert(s[j] == h);
        }
    }
    assert forall|h: u64| (s.contains(h) || h == x) implies #[trigger] s.push(x).contains(h) by {
        if h == x {
            assert(s.push(x)[s.len() as int] == h);
        } else {
            let j = choose|j: int| 0 <= j < s.len() && s[j] == h;
            assert(s.push(x)[j] == h);
        }
    }
    if s.no_duplicates() && !s.contains(x) {
        assert forall|i: int, j: int|
            0 <= i < s.push(x).len() && 0 <= j < s.push(x).len() && i != j implies s.push(x)[i]
            != s.push(x)[j] by {
            if i < s.len() && j < s.len() {
            } else if i < s.len() {
                assert(s.contains(s[i]));
            } else if j < s.len() {
                assert(s.contains(s[j]));
            }
        }
    }
}

proof fn lemma_drop_last_facts(s: Seq<u64>)
    requires
        s.len() > 0,
        s.no_duplicates(),
    ensures
        s.drop_last().no_duplicates(),
        forall|h: u64| #[trigger] s.drop_last().contains(h) <==> (s.contains(h) && h != s.last()),
{
    assert forall|h: u64| #[trigger] s.drop_last().contains(h) implies (s.contains(h) && h
        != s.last()) by {
        let j = choose|j: int| 0 <= j < s.drop_last().len() && s.drop_last()[j] == h;
        assert(s[j] == h);
    }
    assert forall|h: u64| (s.contains(h) && h != s.last()) implies #[trigger] s.drop_last().contains(
        h,
    ) by {
        let j = choose|j: int| 0 <= j < s.len() && s[j] == h;
        assert(j < s.len() - 1);
        assert(s.drop_last()[j] == h);
    }
}

proof fn lemma_remove_facts(s: Seq<u64>, i: int)
    requires
        s.no_duplicates(),
        0 <= i < s.len(),
    ensures
        s.remove(i).len() == s.len() - 1,
        s.remove(i).no_duplicates(),
        forall|h: u64| #[trigger] s.remove(i).contains(h) <==> (s.contains(h) && h != s[i]),
{
    let r = s.remove(i);
    assert(forall|j: int| 0 <= j < i ==> r[j] == s[j]);
    assert(forall|j: int| i <= j < r.len() ==> r[j] == s[j + 1]);
    assert forall|h: u64| #[trigger] r.contains(h) implies (s.contains(h) && h != s[i]) by {
        let j = choose|j: int| 0 <= j < r.len() && r[j] == h;
        if j < i {
            assert(s[j] == h);
        } else {
            assert(s[j + 1] == h);
        }
    }
    assert forall|h: u64| (s.contains(h) && h != s[i]) implies #[trigger] r.contains(h) by {
        let j = choose|j: int| 0 <= j < s.len() && s[j] == h;
        if j < i {
            assert(r[j] == h);
        } else {
            assert(j > i);
            assert(r[j - 1] == h);
        }
    }
    assert forall|a: int, b: int| 0 <= a < r.len() && 0 <= b < r.len() && a != b implies r[a]
        != r[b] by {
        let sa: int = if a < i {
            a
        } else {
            a + 1
        };
        let sb: int = if b < i {
            b
        } else {
            b + 1
        };
        assert(r[a] == s[sa]);
        assert(r[b] == s[sb]);
    }
}

impl ProcessPool {
    pub open spec fn wf(&self) -> bool {
        pool_wf(self@)
    }

    /// A new pool with the given fixed capacity and waiter-queue depth.
    /// All handles are created lazily on demand.
    pub fn new(capacity: usize, queue_depth: usize) -> (p: ProcessPool)
        ensures
            p.wf(),
            p@.capacity == capacity,
            p@.queue_depth == queue_depth,
            p@.idle.len() == 0,
            p@.busy.len() == 0,
            p@.waiters.len() == 0,
            !p@.closed,
    {
        ProcessPool {
            capacity,
            queue_depth,
            idle: Vec::new(),
            busy: Vec::new(),
            waiters: Vec::new(),
            closed: false,
            next_id: 0,
            next_ticket: 0,
        }
    }

    /// Asks for exclusive ownership of a handle.
    pub fn acquire(&mut self) -> (r: AcquireOutcome)
        requires
            old(self).wf(),
        ensures
            final(self).wf(),
            final(self)@ == acquire_next(old(self)@),
            r == acquire_outcome(old(self)@),
    {
        let ghost m0 = self@;
        if self.closed {
            return AcquireOutcome::Closed;
        }
        if self.idle.len() > 0 {
            let id = self.idle.pop().unwrap();
            self.busy.push(id);
            proof {
                assert(m0.idle.last() == id);
                assert(m0.idle.contains(id));
                lemma_drop_last_facts(m0.idle);
                lemma_push_facts(m0.busy, id);
                assert(self@ =~= acquire_next(m0));
            }
            return AcquireOutcome::Granted { id, fresh: false };
        }
        if self.busy.len() < self.capacity && self.next_id < u64::MAX {
            let id = self.next_id;
            self.next_id = self.next_id + 1;
            self.busy.push(id);
            proof {
                lemma_push_facts(m0.busy, id);
                assert(!m0.busy.contains(id));
                assert(self@ =~= acquire_next(m0));
            }
            return AcquireOutcome::Granted { id, fresh: true };
        }
        if self.waiters.len() < self.queue_depth && self.next_ticket < u64::MAX {
            let t = self.next_ticket;
            self.next_ticket = self.next_ticket + 1;
            self.waiters.push(t);
            proof {
                assert(self@ =~= acquire_next(m0));
            }
            return AcquireOutcome::Queued { ticket: t };
        }
        AcquireOutcome::Exhausted
    }

    /// Hands an acquired handle back, exactly once per acquisition.
    pub fn recycle(&mut self, id: u64, outcome: HandleOutcome) -> (r: RecycleEffect)
        requires
            old(self).wf(),
            old(self)@.busy.contains(id),
        ensures
            final(self).wf(),
            final(self)@ == spec_recycle(old(self)@, id, outcome),
            r == spec_recycle_effect(old(self)@, outcome),
    {
        let ghost m0 = self@;
        let n = self.busy.len();
        let mut i: usize = 0;
        while i < n && *self.busy.get(i).unwrap() != id
            invariant
                *self == *old(self),
                n == self.busy@.len(),
                0 <= i <= n,
                forall|j: int| 0 <= j < i ==> self.busy@[j] != id,
            decreases n - i,
        {
            i = i + 1;
        }
        assert(i < n) by {
            let j = choose|j: int| 0 <= j < m0.busy.len() && m0.busy[j] == id;
            assert(m0.busy[j] == id);
        }
        self.busy.remove(i);
        proof {
            assert(m0.busy.index_of_first(id) == Some(i as int)) by {
                m0.busy.index_of_first_ensures(id);
                if m0.busy.index_of_first(id) is Some {
                    let k = m0.busy.index_of_first(id)->0;
                    if k < i {
                        assert(m0.busy[k] != id);
                    }
                    if k > i {
                        assert(m0.busy[i as int] != id);
                    }
                }
            }
            lemma_remove_facts(m0.busy, i as int);
            assert(self@.busy =~= m0.busy.remove_value(id));
        }
        match outcome {
            HandleOutcome::Good => {
                if !self.closed {
                    self.idle.push(id);
                    proof {
                        lemma_push_facts(m0.idle, id);
                        assert(m0.busy.contains(id));
                        assert(!m0.idle.contains(id));
                        assert(self@ =~= spec_recycle(m0, id, outcome));
                    }
                    RecycleEffect::Idled
                } else {
                    proof {
                        assert(self@ =~= spec_recycle(m0, id, outcome));
                    }
                    RecycleEffect::Destroyed
                }
            },
            HandleOutcome::Broken => {
                proof {
                    assert(self@ =~= spec_recycle(m0, id, outcome));
                }
                RecycleEffect::Destroyed
            },
        }
    }

    /// Wakes the waiter that has been queued the longest, in arrival order.
    /// The woken caller retries `acquire` itself.
    pub fn dequeue_waiter(&mut self) -> (t: u64)
        requires
            old(self).wf(),
            old(self)@.waiters.len() > 0,
        ensures
            final(self).wf(),
            t == old(self)@.waiters.first(),
            final(self)@ == (PoolModel { waiters: old(self)@.waiters.drop_first(), ..old(self)@ }),
    {
        let t = self.waiters.remove(0);
        proof {
            assert(self@.waiters =~= old(self)@.waiters.drop_first());
            assert(self@ =~= (PoolModel { waiters: old(self)@.waiters.drop_first(), ..old(self)@ }));
        }
        t
    }

    /// Shuts the pool down: every queued waiter is refused, every idle
    /// handle is drained for destruction, and all later acquisitions fail.
    /// Handles still checked out come back through `recycle`, which
    /// destroys them once the pool is closed.
    pub fn close(&mut self) -> (drained: Vec<u64>)
        requires
            old(self).wf(),
        ensures
            final(self).wf(),
            final(self)@.closed,
            final(self)@.idle.len() == 0,
            final(self)@.waiters.len() == 0,
            drained@ == old(self)@.idle,
            final(self)@.busy == old(self)@.busy,
            final(self)@.capacity == old(self)@.capacity,
    {
        self.closed = true;
        self.waiters = Vec::new();
        let mut drained: Vec<u64> = Vec::new();
        core::mem::swap(&mut drained, &mut self.idle);
        drained
    }
}

/// Mutual exclusion: the pool never has more than `capacity` handles
/// checked out, and an acquisition against a fully busy pool is never
/// granted — the caller is queued while the queue has room, else refused.
pub proof fn lemma_pool_mutual_exclusion(m: PoolModel)
    requires
        pool_wf(m),
    ensures
        m.busy.len() <= m.capacity,
        pool_wf(acquire_next(m)),
        acquire_next(m).busy.len() <= m.capacity,
        m.busy.len() == m.capacity ==> !is_granted(acquire_outcome(m)),
        !m.closed && m.busy.len() == m.capacity && m.waiters.len() < m.queue_depth && m.next_ticket
            < u64::MAX ==> acquire_outcome(m) is Queued,
        !m.closed && m.busy.len() == m.capacity && m.waiters.len() >= m.queue_depth ==> acquire_outcome(
            m,
        ) is Exhausted,
{
    if !m.closed && m.idle.len() > 0 {
        lemma_drop_last_facts(m.idle);
        lemma_push_facts(m.busy, m.idle.last());
        assert(m.idle.contains(m.idle.last()));
    } else if !m.closed && m.busy.len() < m.capacity && m.next_id < u64::MAX {
        lemma_push_facts(m.busy, m.next_id as u64);
    }
}

/// Exclusive ownership: a granted handle was not checked out before the
/// call and is checked out after it, and nobody loses a handle they hold.
pub proof fn lemma_grant_exclusive(m: PoolModel)
    requires
        pool_wf(m),
        is_granted(acquire_outcome(m)),
    ensures
        !m.busy.contains(granted_id(acquire_outcome(m))),
        acquire_next(m).busy.contains(granted_id(acquire_outcome(m))),
        forall|h: u64| m.busy.contains(h) ==> #[trigger] acquire_next(m).busy.contains(h),
{
    if m.idle.len() > 0 {
        assert(m.idle.contains(m.idle.last()));
        lemma_push_facts(m.busy, m.idle.last());
    } else {
        lemma_push_facts(m.busy, m.next_id as u64);
    }
}

/// Two callers are never granted the same handle: successive grants from
/// any well-formed pool state hand out distinct identifiers.
pub proof fn lemma_grants_distinct(m: PoolModel)
    requires
        pool_wf(m),
        is_granted(acquire_outcome(m)),
        is_granted(acquire_outcome(acquire_next(m))),
    ensures
        granted_id(acquire_outcome(m)) != granted_id(acquire_outcome(acquire_next(m))),
{
    lemma_grant_exclusive(m);
    lemma_pool_mutual_exclusion(m);
    lemma_grant_exclusive(acquire_next(m));
}

/// Recovery: destroying a crashed handle frees its capacity, so the next
/// acquisition against an open pool is granted — with a fresh replacement
/// process if no idle handle remains.
pub proof fn lemma_recovery(m: PoolModel, id: u64)
    requires
        pool_wf(m),
        m.busy.contains(id),
        !m.closed,
        m.next_id < u64::MAX,
    ensures
        pool_wf(spec_recycle(m, id, HandleOutcome::Broken)),
        is_granted(acquire_outcome(spec_recycle(m, id, HandleOutcome::Broken))),
{
    let m1 = spec_recycle(m, id, HandleOutcome::Broken);
    m.busy.index_of_first_ensures(id);
    let i = m.busy.index_of_first(id)->0;
    lemma_remove_facts(m.busy, i);
    assert(m1.busy.len() == m.busy.len() - 1);
    assert(m1.busy.len() < m.capacity);
}

/// A handle recycled as good stays usable: the next acquisition against
/// the open pool is granted that same handle, with no fresh process.
pub proof fn lemma_good_recycle_reuses(m: PoolModel, id: u64)
    requires
        pool_wf(m),
        m.busy.contains(id),
        !m.closed,
    ensures
        acquire_outcome(spec_recycle(m, id, HandleOutcome::Good)) == (AcquireOutcome::Granted {
            id,
            fresh: false,
        }),
{
    let m1 = spec_recycle(m, id, HandleOutcome::Good);
    assert(m1.idle.last() == id);
}

/// A closed pool refuses every acquisition and destroys every handle that
/// comes back, so shutdown never strands a caller or reuses a process.
pub proof fn lemma_closed_refuses(m: PoolModel, id: u64, outcome: HandleOutcome)
    requires
        pool_wf(m),
        m.closed,
    ensures
        acquire_outcome(m) is Closed,
        acquire_next(m) == m,
        spec_recycle_effect(m, outcome) is Destroyed,
{
}

} // verus!

