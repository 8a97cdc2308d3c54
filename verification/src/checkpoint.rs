//! Checkpoint policy: when to push a sealed paint to the daemon.
//!
//! Output events mark the mirror dirty. The deadline is
//! `min(last output + idle, first dirty + cap)`: `idle` defers the push until the
//! output goes quiet and `cap` bounds the delay during a continuous burst.
//!
//! The policy has no clock of its own: every instant is handed in by the caller as a
//! count of nanoseconds on the caller's monotonic clock, and every duration is a count
//! of nanoseconds.
use vstd::prelude::*;

verus! {

/// Debounce before a sealed checkpoint: 300 ms of quiet output.
pub const CKPT_IDLE: u64 = 300_000_000;

/// Upper bound on the checkpoint delay during a burst: 5 s.
pub const CKPT_CAP: u64 = 5_000_000_000;

/// Abstract state of a [`CheckpointPolicy`].
pub struct PolicyState {
    pub idle: int,
    pub cap: int,
    /// Instant of the first output since the policy was last clean (the cap anchor).
    pub dirty_since: Option<int>,
    /// Instant of the most recent output (the idle anchor).
    pub last_output: Option<int>,
}

/// Debounce state machine for sealed checkpoints.
pub struct CheckpointPolicy {
    idle: u64,
    cap: u64,
    dirty_since: Option<u64>,
    last_output: Option<u64>,
}

pub open spec fn opt_int(o: Option<u64>) -> Option<int> {
    match o {
        Some(v) => Some(v as int),
        None => None,
    }
}

pub open spec fn min_int(a: int, b: int) -> int {
    if a <= b { a } else { b }
}

impl View for CheckpointPolicy {
    type V = PolicyState;

    closed spec fn view(&self) -> PolicyState {
        PolicyState {
            idle: self.idle as int,
            cap: self.cap as int,
            dirty_since: opt_int(self.dirty_since),
            last_output: opt_int(self.last_output),
        }
    }
}

impl PolicyState {
    /// Both anchors are set together and cleared together.
    pub open spec fn wf(self) -> bool {
        self.dirty_since.is_some() == self.last_output.is_some()
    }

    pub open spec fn clean(idle: int, cap: int) -> PolicyState {
        PolicyState { idle, cap, dirty_since: None, last_output: None }
    }

    pub open spec fn is_dirty(self) -> bool {
        self.dirty_since.is_some()
    }

    /// The state after an output event at `now`.
    pub open spec fn on_output(self, now: int) -> PolicyState {
        PolicyState {
            dirty_since: if self.dirty_since.is_none() { Some(now) } else { self.dirty_since },
            last_output: Some(now),
            ..self
        }
    }

    /// The state after the policy is reset (the checkpoint was pushed).
    pub open spec fn reset(self) -> PolicyState {
        PolicyState::clean(self.idle, self.cap)
    }

    /// `min(last output + idle, first dirty + cap)` while dirty; none while clean.
    pub open spec fn deadline(self) -> Option<int> {
        match (self.last_output, self.dirty_since) {
            (Some(last), Some(since)) => Some(min_int(last + self.idle, since + self.cap)),
            _ => None,
        }
    }

    pub open spec fn is_due(self, now: int) -> bool {
        match self.deadline() {
            Some(d) => now >= d,
            None => false,
        }
    }

    /// Both deadline candidates fit the clock's range.
    pub open spec fn deadline_fits(self) -> bool {
        &&& (self.last_output matches Some(last) ==> last + self.idle <= u64::MAX)
        &&& (self.dirty_since matches Some(since) ==> since + self.cap <= u64::MAX)
    }

    /// The state after a sequence of output events, oldest first.
    pub open spec fn after_outputs(self, outputs: Seq<int>) -> PolicyState
        decreases outputs.len(),
    {
        if outputs.len() == 0 {
            self
        } else {
            self.after_outputs(outputs.drop_last()).on_output(outputs.last())
        }
    }
}

impl Default for CheckpointPolicy {
    /// The default policy: idle 300 ms, cap 5 s, clean.
    fn default() -> (p: CheckpointPolicy)
        ensures
            p.well_formed(),
            p@ == PolicyState::clean(CKPT_IDLE as int, CKPT_CAP as int),
    {
        CheckpointPolicy::with(CKPT_IDLE, CKPT_CAP)
    }
}

impl CheckpointPolicy {
    pub open spec fn well_formed(&self) -> bool {
        self@.wf()
    }

    /// A clean policy with explicit idle and cap durations.
    pub fn with(idle: u64, cap: u64) -> (p: CheckpointPolicy)
        ensures
            p.well_formed(),
            p@ == PolicyState::clean(idle as int, cap as int),
    {
        CheckpointPolicy { idle, cap, dirty_since: None, last_output: None }
    }

    /// An output event: marks the policy dirty and moves the idle anchor. Only the
    /// transition from clean sets the cap anchor.
    pub fn on_output(&mut self, now: u64)
        requires
            old(self).well_formed(),
        ensures
            final(self).well_formed(),
            final(self)@ == old(self)@.on_output(now as int),
    {
        if self.dirty_since.is_none() {
            self.dirty_since = Some(now);
        }
        self.last_output = Some(now);
    }

    pub fn is_dirty(&self) -> (b: bool)
        ensures
            b == self@.is_dirty(),
    {
        self.dirty_since.is_some()
    }

    /// The sealing deadline: only while dirty, `min(last output + idle, first dirty + cap)`.
    pub fn deadline(&self) -> (d: Option<u64>)
        requires
            self.well_formed(),
            self@.deadline_fits(),
        ensures
            opt_int(d) == self@.deadline(),
    {
        match (self.last_output, self.dirty_since) {
            (Some(last), Some(since)) => {
                let by_idle = last + self.idle;
                let by_cap = since + self.cap;
                Some(if by_idle <= by_cap { by_idle } else { by_cap })
            },
            _ => None,
        }
    }

    /// Whether both deadline candidates fit the clock's range (the deadline can be taken).
    pub fn deadline_in_range(&self) -> (b: bool)
        ensures
            b == self@.deadline_fits(),
    {
        let idle_ok = match self.last_output {
            Some(last) => last <= u64::MAX - self.idle,
            None => true,
        };
        let cap_ok = match self.dirty_since {
            Some(since) => since <= u64::MAX - self.cap,
            None => true,
        };
        idle_ok && cap_ok
    }

    /// Whether it is time to seal: dirty and the deadline has been reached.
    pub fn is_due(&self, now: u64) -> (b: bool)
        requires
            self.well_formed(),
            self@.deadline_fits(),
        ensures
            b == self@.is_due(now as int),
    {
        match self.deadline() {
            Some(d) => now >= d,
            None => false,
        }
    }

    /// After the checkpoint was pushed: back to clean (the next output opens a new cycle).
    pub fn reset(&mut self)
        ensures
            final(self).well_formed(),
            final(self)@ == old(self)@.reset(),
    {
        self.dirty_since = None;
        self.last_output = None;
    }
}

/// A well-formed policy has a deadline exactly when it is dirty.
pub proof fn lemma_deadline_iff_dirty(p: PolicyState)
    requires
        p.wf(),
    ensures
        p.deadline().is_some() == p.is_dirty(),
        !p.is_dirty() ==> forall|now: int| !p.is_due(now),
{
}

/// Within one dirty cycle the idle anchor is the latest output and the cap anchor is the
/// first: after outputs `t0, ..., tn` from clean, the deadline is
/// `min(tn + idle, t0 + cap)`, so a continuous burst is sealed no later than `t0 + cap`.
pub proof fn lemma_cycle_deadline(idle: int, cap: int, outputs: Seq<int>)
    requires
        outputs.len() > 0,
    ensures
        PolicyState::clean(idle, cap).after_outputs(outputs).deadline() == Some(
            min_int(outputs.last() + idle, outputs[0] + cap),
        ),
        PolicyState::clean(idle, cap).after_outputs(outputs).deadline().unwrap() <= outputs[0]
            + cap,
        PolicyState::clean(idle, cap).after_outputs(outputs).wf(),
    decreases outputs.len(),
{
    lemma_cycle_anchors(idle, cap, outputs);
}

proof fn lemma_cycle_anchors(idle: int, cap: int, outputs: Seq<int>)
    requires
        outputs.len() > 0,
    ensures
        PolicyState::clean(idle, cap).after_outputs(outputs).dirty_since == Some(outputs[0]),
        PolicyState::clean(idle, cap).after_outputs(outputs).last_output == Some(outputs.last()),
        PolicyState::clean(idle, cap).after_outputs(outputs).idle == idle,
        PolicyState::clean(idle, cap).after_outputs(outputs).cap == cap,
    decreases outputs.len(),
{
    let prefix = outputs.drop_last();
    if outputs.len() > 1 {
        lemma_cycle_anchors(idle, cap, prefix);
        assert(prefix[0] == outputs[0]);
    } else {
        assert(PolicyState::clean(idle, cap).after_outputs(prefix) == PolicyState::clean(idle, cap));
    }
}

/// A later output never brings the deadline forward, and it never moves the cap anchor.
pub proof fn lemma_later_output_extends(p: PolicyState, now: int)
    requires
        p.wf(),
        p.is_dirty(),
        now >= p.last_output.unwrap(),
    ensures
        p.on_output(now).dirty_since == p.dirty_since,
        p.on_output(now).deadline().unwrap() >= p.deadline().unwrap(),
{
}

/// Once due, a policy stays due as time passes.
pub proof fn lemma_due_is_monotone(p: PolicyState, now: int, later: int)
    requires
        p.is_due(now),
        now <= later,
    ensures
        p.is_due(later),
{
}

/// A reset forgets the previous cycle: whatever came before, the next cycle's deadline
/// depends only on its own outputs.
pub proof fn lemma_reset_starts_fresh_cycle(p: PolicyState, outputs: Seq<int>)
    requires
        outputs.len() > 0,
    ensures
        !p.reset().is_dirty(),
        p.reset().deadline() is None,
        p.reset().after_outputs(outputs).deadline() == Some(
            min_int(outputs.last() + p.idle, outputs[0] + p.cap),
        ),
{
    lemma_cycle_deadline(p.idle, p.cap, outputs);
}

} // verus!
