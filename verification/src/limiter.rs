//! The admission limiter: a pool of a fixed number of permits that bounds
//! how many heavy jobs and sub-tasks run at once.

use vstd::prelude::*;

verus! {

/// The answer to a request for a permit.
#[derive(Clone, Copy, Debug, PartialEq, Eq, Structural)]
pub enum Admission {
    /// The caller now holds a permit.
    Granted,
    /// Every permit is out; the caller waits in line for one.
    Queued,
    /// The limiter has been shut down; no permit will be granted.
    Closed,
}

/// One thing that can happen to a limiter.
pub enum LimiterOp {
    /// The task with this ticket asks for a permit.
    Acquire(u64),
    /// A holder hands its permit back.
    Release,
    /// The limiter is shut down.
    Close,
}

/// What a limiter is at one instant.
pub struct LimiterState {
    /// The number of permits, fixed when the limiter is made.
    pub capacity: nat,
    /// The number of permits that are out.
    pub held: nat,
    /// Whether the limiter has been shut down.
    pub closed: bool,
    /// The tickets of the tasks in line, the one that has waited longest
    /// first.
    pub waiting: Seq<u64>,
}

impl LimiterState {
    /// No more permits are out than there are, and a task waits only while
    /// every permit is out and the limiter is open.
    pub open spec fn wf(self) -> bool {
        &&& self.held <= self.capacity
        &&& self.waiting.len() > 0 ==> self.held == self.capacity && !self.closed
    }

    /// A limiter of `capacity` permits, none of them out.
    pub open spec fn fresh(capacity: nat) -> LimiterState {
        LimiterState { capacity, held: 0, closed: false, waiting: Seq::empty() }
    }

    /// The number of permits that can be granted at once.
    pub open spec fn available(self) -> nat {
        if self.closed || self.held >= self.capacity {
            0
        } else {
            (self.capacity - self.held) as nat
        }
    }

    /// A request for a permit: refused if the limiter is shut down, granted
    /// if a permit is free, and else put at the end of the line.
    pub open spec fn acquire(self, ticket: u64) -> (LimiterState, Admission) {
        if self.closed {
            (self, Admission::Closed)
        } else if self.held < self.capacity {
            (LimiterState { held: self.held + 1, ..self }, Admission::Granted)
        } else {
            (LimiterState { waiting: self.waiting.push(ticket), ..self }, Admission::Queued)
        }
    }

    /// A permit comes back. If a task is in line, the one that has waited
    /// longest takes the permit over and its ticket is returned; else the
    /// permit becomes free. With no permit out nothing changes.
    pub open spec fn release(self) -> (LimiterState, Option<u64>) {
        if self.held == 0 {
            (self, None)
        } else if self.waiting.len() > 0 {
            (LimiterState { waiting: self.waiting.drop_first(), ..self }, Some(self.waiting[0]))
        } else {
            (LimiterState { held: (self.held - 1) as nat, ..self }, None)
        }
    }

    /// The limiter is shut down: the tasks in line are turned away, and the
    /// permits that are out can still come back.
    pub open spec fn close(self) -> LimiterState {
        LimiterState { closed: true, waiting: Seq::empty(), ..self }
    }

    pub open spec fn apply(self, op: LimiterOp) -> LimiterState {
        match op {
            LimiterOp::Acquire(ticket) => self.acquire(ticket).0,
            LimiterOp::Release => self.release().0,
            LimiterOp::Close => self.close(),
        }
    }

    /// The limiter after `ops`, applied in order.
    pub open spec fn apply_all(self, ops: Seq<LimiterOp>) -> LimiterState
        decreases ops.len(),
    {
        if ops.len() == 0 {
            self
        } else {
            self.apply_all(ops.drop_last()).apply(ops.last())
        }
    }
}

/// A counting permit pool. It decides who is admitted and who waits; making
/// a task wait is left to the caller.
pub struct AdmissionLimiter {
    capacity: usize,
    held: usize,
    closed: bool,
    waiting: Vec<u64>,
}

impl View for AdmissionLimiter {
    type V = LimiterState;

    closed spec fn view(&self) -> LimiterState {
        LimiterState {
            capacity: self.capacity as nat,
            held: self.held as nat,
            closed: self.closed,
            waiting: self.waiting@,
        }
    }
}

impl AdmissionLimiter {
    #[verifier::type_invariant]
    spec fn inv(self) -> bool {
        self@.wf()
    }

    /// A limiter of `capacity` permits.
    pub fn new(capacity: usize) -> (limiter: AdmissionLimiter)
        ensures
            limiter@ == LimiterState::fresh(capacity as nat),
    {
        AdmissionLimiter { capacity, held: 0, closed: false, waiting: Vec::new() }
    }

    pub fn capacity(&self) -> (n: usize)
        ensures
            n == self@.capacity,
            self@.wf(),
    {
        proof {
            use_type_invariant(self);
        }
        self.capacity
    }

    /// The number of permits that are out; never more than the capacity.
    pub fn held(&self) -> (n: usize)
        ensures
            n == self@.held,
            n <= self@.capacity,
    {
        proof {
            use_type_invariant(self);
        }
        self.held
    }

    pub fn available_permits(&self) -> (n: usize)
        ensures
            n == self@.available(),
    {
        proof {
            use_type_invariant(self);
        }
        if self.closed {
            0
        } else {
            self.capacity - self.held
        }
    }

    pub fn is_closed(&self) -> (b: bool)
        ensures
            b == self@.closed,
    {
        self.closed
    }

    /// The number of tasks in line.
    pub fn waiting(&self) -> (n: usize)
        ensures
            n == self@.waiting.len(),
    {
        self.waiting.len()
    }

    /// Asks for a permit on behalf of the task `ticket`.
    pub fn acquire(&mut self, ticket: u64) -> (admission: Admission)
        ensures
            (final(self)@, admission) == old(self)@.acquire(ticket),
            final(self)@.wf(),
    {
        proof {
            use_type_invariant(&*self);
        }
        if self.closed {
            Admission::Closed
        } else if self.held < self.capacity {
            self.held = self.held + 1;
            Admission::Granted
        } else {
            let mut line: Vec<u64> = Vec::new();
            std::mem::swap(&mut line, &mut self.waiting);
            line.push(ticket);
            self.waiting = line;
            Admission::Queued
        }
    }

    /// Hands a permit back. Returns the ticket of the task that takes it
    /// over, if one was in line.
    pub fn release(&mut self) -> (next: Option<u64>)
        ensures
            (final(self)@, next) == old(self)@.release(),
            final(self)@.wf(),
    {
        proof {
            use_type_invariant(&*self);
        }
        if self.held == 0 {
            None
        } else if self.waiting.len() > 0 {
            let mut line: Vec<u64> = Vec::new();
            std::mem::swap(&mut line, &mut self.waiting);
            let ticket = line.remove(0);
            self.waiting = line;
            Some(ticket)
        } else {
            self.held = self.held - 1;
            None
        }
    }

    /// Shuts the limiter down. Returns the tickets of the tasks that were in
    /// line, which are turned away.
    pub fn close(&mut self) -> (turned_away: Vec<u64>)
        ensures
            final(self)@ == old(self)@.close(),
            turned_away@ == old(self)@.waiting,
            final(self)@.wf(),
    {
        proof {
            use_type_invariant(&*self);
        }
        let mut line: Vec<u64> = Vec::new();
        std::mem::swap(&mut line, &mut self.waiting);
        self.closed = true;
        line
    }
}

/// Each operation keeps a well-formed limiter well formed and leaves its
/// capacity as it was.
pub proof fn lemma_apply_keeps_wf(state: LimiterState, op: LimiterOp)
    requires
        state.wf(),
    ensures
        state.apply(op).wf(),
        state.apply(op).capacity == state.capacity,
{
}

/// At no instant are more permits out than the limiter was made with:
/// whatever is asked of a limiter of `capacity` permits, in whatever order,
/// after each operation at most `capacity` permits are held, and a task is
/// in line only while all of them are.
pub proof fn law_permits_never_exceed_capacity(capacity: nat, ops: Seq<LimiterOp>)
    ensures
        forall|k: int|
            0 <= k <= ops.len() ==> {
                let state = #[trigger] LimiterState::fresh(capacity).apply_all(ops.take(k));
                &&& state.held <= capacity
                &&& state.capacity == capacity
                &&& state.wf()
            },
{
    assert forall|k: int| 0 <= k <= ops.len() implies {
        let state = #[trigger] LimiterState::fresh(capacity).apply_all(ops.take(k));
        &&& state.held <= capacity
        &&& state.capacity == capacity
        &&& state.wf()
    } by {
        lemma_reachable_wf(capacity, ops.take(k));
    }
}

proof fn lemma_reachable_wf(capacity: nat, ops: Seq<LimiterOp>)
    ensures
        LimiterState::fresh(capacity).apply_all(ops).wf(),
        LimiterState::fresh(capacity).apply_all(ops).capacity == capacity,
    decreases ops.len(),
{
    if ops.len() > 0 {
        lemma_reachable_wf(capacity, ops.drop_last());
        lemma_apply_keeps_wf(LimiterState::fresh(capacity).apply_all(ops.drop_last()), ops.last());
    }
}

/// Permits are handed over in the order in which they were asked for: the
/// task that a release admits is the one at the head of the line, and the
/// others keep their order.
pub proof fn law_release_serves_longest_waiting(state: LimiterState)
    requires
        state.wf(),
        state.waiting.len() > 0,
        state.held > 0,
    ensures
        state.release().1 == Some(state.waiting[0]),
        state.release().0.waiting == state.waiting.drop_first(),
        state.release().0.held == state.held,
{
}

} // verus!
