//! The background worker's side of a bulk operation: which item comes next,
//! what to do at a naming collision, and when to stop.
//!
//! The worker owns no I/O here. Its driver asks `poll` what to do with the
//! next item (telling it whether cancellation was observed and whether the
//! item's destination already exists), performs the returned step, and, after
//! an `Ask`, hands the user's `Decision` to `resolve`.
use vstd::prelude::*;

verus! {

/// A user's answer to one naming collision.
#[derive(Clone, Copy, Debug, PartialEq, Eq, Structural)]
pub enum Decision {
    Overwrite,
    OverwriteAll,
    Skip,
    SkipAll,
    Cancel,
}

/// A blanket answer stored by `OverwriteAll` or `SkipAll`.
#[derive(Clone, Copy, Debug, PartialEq, Eq, Structural)]
pub enum Resolution {
    Overwrite,
    Skip,
}

/// What the worker's driver must do next.
#[derive(Clone, Copy, Debug, PartialEq, Eq, Structural)]
pub enum WorkerStep {
    /// Write item `i` (its destination is replaced if present).
    Write(usize),
    /// Leave item `i` alone.
    SkipItem(usize),
    /// Item `i` collides: report a conflict and wait for a decision.
    Ask(usize),
    /// No further item is touched.
    Finish,
}

/// A coordination failure: a decision arrived while no collision was
/// outstanding. It reveals a bug in the driver, not a user-facing condition.
#[derive(Clone, Copy, Debug, PartialEq, Eq, Structural)]
pub enum CoordinationError {
    ProtocolViolation,
}

/// Progress of one bulk operation on the worker side.
#[derive(Clone, Copy, Debug, PartialEq, Eq, Structural)]
pub struct Worker {
    /// Index of the next item to consider.
    pub next: usize,
    /// Number of items in the operation.
    pub total: usize,
    /// Items already written or skipped.
    pub processed: usize,
    /// Blanket answer for later collisions, once one was chosen.
    pub blanket: Option<Resolution>,
    /// The item waiting for a decision.
    pub pending: Option<usize>,
    /// Set once the worker stops (all items done, or cancelled).
    pub stopped: bool,
}

impl Worker {
    pub open spec fn wf(self) -> bool {
        &&& self.next <= self.total
        &&& self.processed == self.next
        &&& (self.pending matches Some(i) ==> i == self.next && i < self.total && !self.stopped)
    }

    pub open spec fn new_spec(total: usize) -> Worker {
        Worker { next: 0, total, processed: 0, blanket: None, pending: None, stopped: false }
    }

    /// What happens to the next item: `cancel` tells whether the cancellation
    /// flag was observed, `dest_exists` whether the item's destination exists.
    pub open spec fn poll_spec(self, cancel: bool, dest_exists: bool) -> (Worker, WorkerStep) {
        if self.stopped || self.next >= self.total || cancel {
            (Worker { stopped: true, ..self }, WorkerStep::Finish)
        } else if !dest_exists || self.blanket == Some(Resolution::Overwrite) {
            (
                Worker { next: (self.next + 1) as usize, processed: (self.processed + 1) as usize, ..self },
                WorkerStep::Write(self.next),
            )
        } else if self.blanket == Some(Resolution::Skip) {
            (
                Worker { next: (self.next + 1) as usize, processed: (self.processed + 1) as usize, ..self },
                WorkerStep::SkipItem(self.next),
            )
        } else {
            (Worker { pending: Some(self.next), ..self }, WorkerStep::Ask(self.next))
        }
    }

    /// The effect of the user's decision on the pending item.
    pub open spec fn resolve_spec(self, d: Decision) -> (Worker, WorkerStep) {
        let i = self.next;
        let done = Worker {
            next: (self.next + 1) as usize,
            processed: (self.processed + 1) as usize,
            pending: None,
            ..self
        };
        match d {
            Decision::Overwrite => (done, WorkerStep::Write(i)),
            Decision::OverwriteAll => (
                Worker { blanket: Some(Resolution::Overwrite), ..done },
                WorkerStep::Write(i),
            ),
            Decision::Skip => (done, WorkerStep::SkipItem(i)),
            Decision::SkipAll => (
                Worker { blanket: Some(Resolution::Skip), ..done },
                WorkerStep::SkipItem(i),
            ),
            Decision::Cancel => (Worker { pending: None, stopped: true, ..self }, WorkerStep::Finish),
        }
    }

    /// A worker for `total` items, none handled yet.
    pub fn new(total: usize) -> (r: Worker)
        ensures
            r == Worker::new_spec(total),
            r.wf(),
    {
        Worker { next: 0, total, processed: 0, blanket: None, pending: None, stopped: false }
    }

    /// Decide what happens to the next item.
    pub fn poll(&mut self, cancel: bool, dest_exists: bool) -> (r: WorkerStep)
        requires
            old(self).wf(),
            old(self).pending is None,
        ensures
            (*final(self), r) == old(self).poll_spec(cancel, dest_exists),
            final(self).wf(),
    {
        if self.stopped || self.next >= self.total || cancel {
            self.stopped = true;
            WorkerStep::Finish
        } else if !dest_exists || self.blanket == Some(Resolution::Overwrite) {
            let i = self.next;
            self.next = self.next + 1;
            self.processed = self.processed + 1;
            WorkerStep::Write(i)
        } else if self.blanket == Some(Resolution::Skip) {
            let i = self.next;
            self.next = self.next + 1;
            self.processed = self.processed + 1;
            WorkerStep::SkipItem(i)
        } else {
            self.pending = Some(self.next);
            WorkerStep::Ask(self.next)
        }
    }

    /// Apply the user's decision to the pending item.
    pub fn resolve(&mut self, d: Decision) -> (r: WorkerStep)
        requires
            old(self).wf(),
            old(self).pending is Some,
        ensures
            (*final(self), r) == old(self).resolve_spec(d),
            final(self).wf(),
            final(self).pending is None,
    {
        let i = self.next;
        match d {
            Decision::Cancel => {
                self.pending = None;
                self.stopped = true;
                return WorkerStep::Finish;
            },
            Decision::OverwriteAll => {
                self.blanket = Some(Resolution::Overwrite);
            },
            Decision::SkipAll => {
                self.blanket = Some(Resolution::Skip);
            },
            _ => {},
        }
        self.next = self.next + 1;
        self.processed = self.processed + 1;
        self.pending = None;
        match d {
            Decision::Overwrite | Decision::OverwriteAll => WorkerStep::Write(i),
            _ => WorkerStep::SkipItem(i),
        }
    }

    /// Hand a decision to the worker, checking that one is awaited; without
    /// an outstanding collision the decision is refused and nothing changes.
    pub fn offer_decision(&mut self, d: Decision) -> (r: Result<WorkerStep, CoordinationError>)
        requires
            old(self).wf(),
        ensures
            final(self).wf(),
            old(self).pending is None ==> r == Err::<WorkerStep, CoordinationError>(
                CoordinationError::ProtocolViolation,
            ) && *final(self) == *old(self),
            old(self).pending is Some ==> r == Ok::<WorkerStep, CoordinationError>(
                old(self).resolve_spec(d).1,
            ) && *final(self) == old(self).resolve_spec(d).0,
    {
        if self.pending.is_none() {
            Err(CoordinationError::ProtocolViolation)
        } else {
            Ok(self.resolve(d))
        }
    }

    /// Whether the worker still waits for a decision.
    pub fn awaiting_decision(&self) -> (r: bool)
        ensures
            r == self.pending is Some,
    {
        self.pending.is_some()
    }

    /// Whether the worker has stopped.
    pub fn is_finished(&self) -> (r: bool)
        ensures
            r == self.stopped,
    {
        self.stopped
    }
}

/// Counts of what a run of the worker did.
pub ghost struct Tally {
    /// Collisions handed to the user.
    pub asks: nat,
    /// Collisions answered by a stored blanket decision.
    pub auto_resolved: nat,
    /// Items written.
    pub writes: nat,
    /// Items skipped.
    pub skips: nat,
    /// Whether the run reached `Finish`.
    pub finished: bool,
}

/// Runs the worker for at most `steps` polls, with every destination already
/// present and no cancellation; each `Ask` is answered by the next decision
/// of `ds`.
pub open spec fn run_colliding(w: Worker, ds: Seq<Decision>, steps: nat) -> Tally
    decreases steps,
{
    if steps == 0 {
        Tally { asks: 0, auto_resolved: 0, writes: 0, skips: 0, finished: false }
    } else {
        let (w1, st) = w.poll_spec(false, true);
        match st {
            WorkerStep::Finish => Tally {
                asks: 0,
                auto_resolved: 0,
                writes: 0,
                skips: 0,
                finished: true,
            },
            WorkerStep::Write(_) => {
                let t = run_colliding(w1, ds, (steps - 1) as nat);
                Tally { auto_resolved: t.auto_resolved + 1, writes: t.writes + 1, ..t }
            },
            WorkerStep::SkipItem(_) => {
                let t = run_colliding(w1, ds, (steps - 1) as nat);
                Tally { auto_resolved: t.auto_resolved + 1, skips: t.skips + 1, ..t }
            },
            WorkerStep::Ask(_) => {
                if ds.len() == 0 {
                    Tally { asks: 1, auto_resolved: 0, writes: 0, skips: 0, finished: false }
                } else {
                    let (w2, st2) = w1.resolve_spec(ds[0]);
                    let t = run_colliding(w2, ds.drop_first(), (steps - 1) as nat);
                    match st2 {
                        WorkerStep::Write(_) => Tally { asks: t.asks + 1, writes: t.writes + 1, ..t },
                        WorkerStep::SkipItem(_) => Tally { asks: t.asks + 1, skips: t.skips + 1, ..t },
                        _ => Tally {
                            asks: 1,
                            auto_resolved: 0,
                            writes: 0,
                            skips: 0,
                            finished: true,
                        },
                    }
                }
            },
        }
    }
}

proof fn lemma_blanket_overwrite_runs(w: Worker, ds: Seq<Decision>)
    requires
        w.wf(),
        w.pending is None,
        !w.stopped,
        w.blanket == Some(Resolution::Overwrite),
    ensures
        run_colliding(w, ds, (w.total - w.next + 1) as nat) == (Tally {
            asks: 0,
            auto_resolved: (w.total - w.next) as nat,
            writes: (w.total - w.next) as nat,
            skips: 0,
            finished: true,
        }),
    decreases w.total - w.next,
{
    if w.next < w.total {
        let (w1, st) = w.poll_spec(false, true);
        lemma_blanket_overwrite_runs(w1, ds);
    }
}

/// When the first collision of an operation whose `n` items all collide is
/// answered with `OverwriteAll`, the user is asked exactly once, the other
/// `n - 1` collisions are resolved as overwrites without asking, and every
/// item is written.
pub proof fn lemma_overwrite_all_batches(n: usize, ds: Seq<Decision>)
    requires
        n >= 1,
        ds.len() >= 1,
        ds[0] == Decision::OverwriteAll,
    ensures
        run_colliding(Worker::new_spec(n), ds, (n + 1) as nat) == (Tally {
            asks: 1,
            auto_resolved: (n - 1) as nat,
            writes: n as nat,
            skips: 0,
            finished: true,
        }),
{
    let w = Worker::new_spec(n);
    let (w1, st) = w.poll_spec(false, true);
    let (w2, st2) = w1.resolve_spec(ds[0]);
    lemma_blanket_overwrite_runs(w2, ds.drop_first());
}

/// Once the worker observes cancellation, it finishes, and every later poll
/// finishes too: no write begins on any further item, and nothing already
/// processed is undone.
pub proof fn lemma_cancel_stops_writes(w: Worker, dest_exists: bool, later_cancel: bool, later_dest_exists: bool)
    requires
        w.wf(),
        w.pending is None,
    ensures
        w.poll_spec(true, dest_exists).1 == WorkerStep::Finish,
        w.poll_spec(true, dest_exists).0.poll_spec(later_cancel, later_dest_exists).1 == WorkerStep::Finish,
        w.poll_spec(true, dest_exists).0.processed == w.processed,
        w.poll_spec(true, dest_exists).0.stopped,
{
}

/// A cancelling decision stops the worker; no later poll writes.
pub proof fn lemma_cancel_decision_stops(w: Worker, later_cancel: bool, later_dest_exists: bool)
    requires
        w.wf(),
        w.pending is Some,
    ensures
        w.resolve_spec(Decision::Cancel).1 == WorkerStep::Finish,
        w.resolve_spec(Decision::Cancel).0.poll_spec(later_cancel, later_dest_exists).1
            == WorkerStep::Finish,
        w.resolve_spec(Decision::Cancel).0.processed == w.processed,
{
}

} // verus!
