//! The barrier: a rendezvous of a fixed number of threads, round after
//! round.
//!
//! Under its mutex the barrier keeps how many threads of the current round
//! have arrived and which round it is. The thread whose arrival completes
//! the round resets the count, moves on to the next round and is the
//! leader of the round; the others sleep until they see that the round has
//! changed.

use crate::condvar::{Condvar, Waiter};
use crate::init_assert::InitState;
use crate::mutex::Mutex;
use crate::sys::ignore_poison;
use std::sync::Arc;
use vstd::prelude::*;

verus! {

/// What the barrier protects: the arrivals of this round, and the number
/// of the round.
pub struct BarrierState {
    pub count: usize,
    pub generation_id: usize,
}

/// A rendezvous point for `num_threads` threads.
pub struct Barrier {
    lock: Mutex<BarrierState>,
    cvar: Condvar,
    num_threads: usize,
}

/// What a thread is told when it leaves the barrier.
#[derive(Debug, Clone, Copy, PartialEq, Eq, Structural)]
pub struct BarrierWaitResult(pub bool);

impl BarrierWaitResult {
    /// `true` for exactly one thread of each round.
    pub fn is_leader(&self) -> (r: bool)
        ensures
            r == self.0,
    {
        self.0
    }
}

/// A thread asleep at the barrier: the round in which it arrived, and its
/// place on the condition variable.
#[derive(Debug)]
pub struct Ticket {
    generation: usize,
    waiter: Waiter,
}

impl Ticket {
    /// The round in which the thread arrived.
    pub closed spec fn generation(&self) -> usize {
        self.generation
    }
}

/// How an arrival, or a wake-up, ended.
#[derive(Debug)]
pub enum Arrival {
    /// The thread leaves the barrier.
    Released(BarrierWaitResult),
    /// The round is not complete: the thread sleeps on, and comes back
    /// with the ticket after each wake-up.
    Parked(Ticket),
}

/// The round that follows round `generation`. The number wraps around;
/// all that matters is that it differs from the round just completed.
pub open spec fn next_generation(generation: usize) -> usize {
    if generation == usize::MAX {
        0
    } else {
        (generation + 1) as usize
    }
}

/// Whether the thread that finds `count` earlier arrivals completes a
/// round of `n`.
pub open spec fn leads(count: usize, n: usize) -> bool {
    count + 1 >= n
}

/// The count after an arrival that found `count` earlier ones.
pub open spec fn count_after(count: usize, n: usize) -> usize {
    if leads(count, n) {
        0
    } else {
        (count + 1) as usize
    }
}

/// The round after an arrival that found `count` earlier ones in round
/// `generation`.
pub open spec fn generation_after(count: usize, generation: usize, n: usize) -> usize {
    if leads(count, n) {
        next_generation(generation)
    } else {
        generation
    }
}

/// Whether a thread that arrived in round `arrived` sleeps on when the
/// barrier shows `count` arrivals in round `generation`.
pub open spec fn must_wait(arrived: usize, count: usize, generation: usize, n: usize) -> bool {
    arrived == generation && count < n
}

/// The count and the round that the barrier shows after `k` arrivals in a
/// row, when it showed `count` arrivals in round `generation` before them.
pub open spec fn after_arrivals(count: usize, generation: usize, n: usize, k: nat) -> (
    usize,
    usize,
)
    decreases k,
{
    if k == 0 {
        (count, generation)
    } else {
        let before = after_arrivals(count, generation, n, (k - 1) as nat);
        (count_after(before.0, n), generation_after(before.0, before.1, n))
    }
}

/// How many of those `k` arrivals left the barrier as leaders.
pub open spec fn leaders_among(count: usize, generation: usize, n: usize, k: nat) -> nat
    decreases k,
{
    if k == 0 {
        0
    } else {
        let before = after_arrivals(count, generation, n, (k - 1) as nat);
        leaders_among(count, generation, n, (k - 1) as nat) + (if leads(before.0, n) {
            1nat
        } else {
            0nat
        })
    }
}

/// While a round of `n` is short of a thread, the arrivals are counted
/// one by one, the round stays the same, and nobody has led.
pub proof fn lemma_round_in_progress(generation: usize, n: usize, k: nat)
    requires
        k < n,
    ensures
        after_arrivals(0, generation, n, k) == (k as usize, generation),
        leaders_among(0, generation, n, k) == 0,
    decreases k,
{
    if k > 0 {
        lemma_round_in_progress(generation, n, (k - 1) as nat);
    }
}

/// A round of `n >= 1` threads: exactly one of the `n` arrivals leads, and
/// it is the last; until it comes every thread that arrived in the round
/// sleeps on, and after it none does; the barrier then stands at the start
/// of the next round, with nobody counted.
pub proof fn lemma_round(generation: usize, n: usize)
    requires
        n >= 1,
    ensures
        leaders_among(0, generation, n, n as nat) == 1,
        leads(after_arrivals(0, generation, n, (n - 1) as nat).0, n),
        after_arrivals(0, generation, n, n as nat) == (0usize, next_generation(generation)),
        forall|k: nat|
            k < n ==> must_wait(
                generation,
                (#[trigger] after_arrivals(0, generation, n, k)).0,
                after_arrivals(0, generation, n, k).1,
                n,
            ),
        !must_wait(generation, 0, next_generation(generation), n),
{
    lemma_round_in_progress(generation, n, (n - 1) as nat);
    assert forall|k: nat| k < n implies must_wait(
        generation,
        (#[trigger] after_arrivals(0, generation, n, k)).0,
        after_arrivals(0, generation, n, k).1,
        n,
    ) by {
        lemma_round_in_progress(generation, n, k);
    }
}

/// Arrivals in a row can be taken in two runs: the second run starts from
/// what the first one left.
pub proof fn lemma_arrivals_split(count: usize, generation: usize, n: usize, a: nat, b: nat)
    ensures
        after_arrivals(count, generation, n, a + b) == after_arrivals(
            after_arrivals(count, generation, n, a).0,
            after_arrivals(count, generation, n, a).1,
            n,
            b,
        ),
        leaders_among(count, generation, n, a + b) == leaders_among(count, generation, n, a)
            + leaders_among(
            after_arrivals(count, generation, n, a).0,
            after_arrivals(count, generation, n, a).1,
            n,
            b,
        ),
    decreases b,
{
    if b > 0 {
        lemma_arrivals_split(count, generation, n, a, (b - 1) as nat);
        assert(a + b - 1 == a + (b - 1));
    }
}

/// Any number of rounds, one after the other with the same `n >= 1`
/// threads: after `rounds` times `n` arrivals nobody is counted, and each
/// round had one leader.
pub proof fn lemma_rounds(generation: usize, n: usize, rounds: nat)
    requires
        n >= 1,
    ensures
        after_arrivals(0, generation, n, (rounds * n) as nat).0 == 0,
        leaders_among(0, generation, n, (rounds * n) as nat) == rounds,
    decreases rounds,
{
    if rounds > 0 {
        let done = (rounds - 1) as nat;
        lemma_rounds(generation, n, done);
        assert(rounds * n == done * n + n) by (nonlinear_arith)
            requires
                rounds == done + 1,
        ;
        lemma_arrivals_split(0, generation, n, (done * n) as nat, n as nat);
        let mid = after_arrivals(0, generation, n, (done * n) as nat);
        lemma_round(mid.1, n);
    } else {
        assert(rounds * n == 0) by (nonlinear_arith)
            requires
                rounds == 0,
        ;
    }
}

impl Barrier {
    /// The arrivals of the current round.
    pub closed spec fn count(&self) -> usize {
        self.lock.value().count
    }

    /// The number of the current round.
    pub closed spec fn generation(&self) -> usize {
        self.lock.value().generation_id
    }

    /// The number of threads that make a round.
    pub closed spec fn num_threads(&self) -> usize {
        self.num_threads
    }

    /// Whether `init` may still run.
    pub closed spec fn is_fresh(&self) -> bool {
        &&& self.lock.state() == InitState::Uninit
        &&& self.cvar.state() == InitState::Uninit
    }

    /// Whether `init` has run.
    pub closed spec fn is_init(&self) -> bool {
        &&& self.lock.is_init()
        &&& self.cvar.is_init()
    }

    /// What holds of a barrier between any two operations: nobody is
    /// inside its mutex, the mutex is clean, and a round in progress is
    /// short of at least one thread.
    pub closed spec fn wf(&self) -> bool {
        &&& !self.lock.held()
        &&& !self.lock.poisoned()
        &&& (self.count() == 0 || self.count() < self.num_threads())
    }

    /// A barrier for `n` threads that is not yet ready for use.
    pub fn uninit(n: usize) -> (r: Barrier)
        ensures
            r.is_fresh(),
            r.wf(),
            r.num_threads() == n,
            r.count() == 0,
            r.generation() == 0,
    {
        Barrier {
            lock: Mutex::uninit(BarrierState { count: 0, generation_id: 0 }),
            cvar: Condvar::uninit(),
            num_threads: n,
        }
    }

    /// A barrier for `n` threads, ready for use, at its place on the heap.
    pub fn boxed(n: usize) -> (r: Box<Self>)
        ensures
            r.is_init(),
            r.wf(),
            r.num_threads() == n,
            r.count() == 0,
            r.generation() == 0,
    {
        let mut this = Box::new(Self::uninit(n));
        this.init();
        this
    }

    /// A barrier for `n` threads, ready for use, behind a shared handle.
    pub fn arc(n: usize) -> (r: Arc<Self>)
        ensures
            r.is_init(),
            r.wf(),
            r.num_threads() == n,
            r.count() == 0,
            r.generation() == 0,
    {
        let mut this = Self::uninit(n);
        this.init();
        Arc::new(this)
    }

    /// Makes the barrier ready for use. Doing so twice is a usage error.
    pub fn init(&mut self)
        requires
            old(self).is_fresh(),
        ensures
            final(self).is_init(),
            final(self).wf() == old(self).wf(),
            final(self).num_threads() == old(self).num_threads(),
            final(self).count() == old(self).count(),
            final(self).generation() == old(self).generation(),
    {
        self.lock.init();
        self.cvar.init();
    }

    /// Reports whether `init` may still run.
    pub fn is_uninit(&self) -> (r: bool)
        ensures
            r == self.is_fresh(),
    {
        self.lock.init_state() == InitState::Uninit && self.cvar.init_state() == InitState::Uninit
    }

    /// Reports whether the barrier takes arrivals: `init` has run, and the
    /// barrier is as every operation leaves it.
    pub fn is_ready(&self) -> (r: bool)
        ensures
            r == (self.is_init() && self.wf()),
    {
        self.lock.init_state() == InitState::Init && self.cvar.init_state() == InitState::Init
            && !self.lock.is_locked() && !self.lock.is_poisoned() && (self.lock.peek().count == 0
            || self.lock.peek().count < self.num_threads)
    }

    /// Reports the arrivals of the current round.
    pub fn arrived(&self) -> (r: usize)
        ensures
            r == self.count(),
    {
        self.lock.peek().count
    }

    /// One arrival at the barrier.
    ///
    /// The thread that completes the round resets the count, opens the
    /// next round, wakes the sleepers and leaves as the leader. Any other
    /// thread is counted and sleeps, with a ticket for the round in which
    /// it arrived.
    pub fn wait(&mut self) -> (r: Arrival)
        requires
            old(self).is_init(),
            old(self).wf(),
        ensures
            final(self).is_init(),
            final(self).wf(),
            final(self).num_threads() == old(self).num_threads(),
            final(self).count() == count_after(old(self).count(), old(self).num_threads()),
            final(self).generation() == generation_after(
                old(self).count(),
                old(self).generation(),
                old(self).num_threads(),
            ),
            match r {
                Arrival::Released(result) => leads(old(self).count(), old(self).num_threads())
                    && result == BarrierWaitResult(true),
                Arrival::Parked(ticket) => !leads(old(self).count(), old(self).num_threads())
                    && ticket.generation() == old(self).generation(),
            },
    {
        let lock = ignore_poison(self.lock.lock(false));
        let state = lock.deref_mut(&mut self.lock);
        let local_gen = state.generation_id;
        state.count = state.count + 1;
        if state.count < self.num_threads {
            let waiter = self.cvar.park(&mut self.lock, lock);
            Arrival::Parked(Ticket { generation: local_gen, waiter })
        } else {
            state.count = 0;
            state.generation_id = state.generation_id.wrapping_add(1);
            self.cvar.notify_all();
            lock.release(&mut self.lock, false);
            Arrival::Released(BarrierWaitResult(true))
        }
    }

    /// A wake-up of a thread that sleeps at the barrier, for whatever
    /// reason it woke. It leaves, not as the leader, once the round in
    /// which it arrived is over; until then it sleeps on.
    pub fn resume(&mut self, ticket: Ticket) -> (r: Arrival)
        requires
            old(self).is_init(),
            old(self).wf(),
        ensures
            final(self).is_init(),
            final(self).wf(),
            final(self).num_threads() == old(self).num_threads(),
            final(self).count() == old(self).count(),
            final(self).generation() == old(self).generation(),
            match r {
                Arrival::Released(result) => !must_wait(
                    ticket.generation(),
                    old(self).count(),
                    old(self).generation(),
                    old(self).num_threads(),
                ) && result == BarrierWaitResult(false),
                Arrival::Parked(again) => must_wait(
                    ticket.generation(),
                    old(self).count(),
                    old(self).generation(),
                    old(self).num_threads(),
                ) && again.generation() == ticket.generation(),
            },
    {
        let Ticket { generation: local_gen, waiter } = ticket;
        let lock = ignore_poison(self.cvar.resume(&mut self.lock, waiter));
        let state = lock.deref(&self.lock);
        if local_gen == state.generation_id && state.count < self.num_threads {
            let waiter = self.cvar.park(&mut self.lock, lock);
            Arrival::Parked(Ticket { generation: local_gen, waiter })
        } else {
            lock.release(&mut self.lock, false);
            Arrival::Released(BarrierWaitResult(false))
        }
    }
}

} // verus!
