use vstd::prelude::*;

verus! {

/// Where a task cell stands in its scheduling protocol.
#[derive(Clone, Copy, Debug, PartialEq, Eq, Structural)]
pub enum Phase {
    /// Built, never submitted.
    Created,
    /// A poll-execution job sits in the compute-worker pool's queue.
    Scheduled,
    /// A worker thread is advancing the computation.
    Polling,
    /// The last poll step was not ready; the cell waits for a wake-up.
    Waiting,
    /// The computation finished and its value was routed to the channel.
    Completed,
    /// The owning handle was dropped; nothing happens any more.
    Cancelled,
}

/// What happens to a cell.
#[derive(Clone, Copy, Debug, PartialEq, Eq, Structural)]
pub enum Event {
    /// The computation asks to make progress (also the first submission).
    Wake,
    /// A poll-execution job for the cell starts on a worker thread.
    RunJob,
    /// A poll step ended; `true` when the computation is ready with a value.
    PollDone(bool),
    /// The computation failed during its poll step: the cell retires.
    Failed,
    /// The owning handle was dropped.
    Cancel,
}

/// What the runner of a cell must do after an event.
#[derive(Clone, Copy, Debug, PartialEq, Eq, Structural)]
pub enum Action {
    /// Nothing.
    Idle,
    /// Submit one poll-execution job to the compute-worker pool.
    Submit,
    /// Poll the computation once, under the reactor-context guard.
    Poll,
    /// Send the computed value through the result channel.
    Deliver,
    /// Drop the computed value: nobody waits for it.
    Discard,
}

/// The abstract state of a task cell.
pub struct CellModel {
    pub phase: Phase,
    /// A poll-execution job is queued in the pool and has not started.
    pub queued: bool,
    /// A poll step is executing on a worker thread.
    pub polling: bool,
    /// A wake-up arrived during the running poll step.
    pub rewake: bool,
}

impl CellModel {
    pub open spec fn initial() -> CellModel {
        CellModel { phase: Phase::Created, queued: false, polling: false, rewake: false }
    }

    /// The number of poll-execution jobs for this cell that are queued or running.
    pub open spec fn jobs(self) -> nat {
        (if self.queued { 1nat } else { 0nat }) + (if self.polling { 1nat } else { 0nat })
    }

    /// The flags agree with the phase.
    pub open spec fn wf(self) -> bool {
        match self.phase {
            Phase::Created => !self.queued && !self.polling && !self.rewake,
            Phase::Scheduled => self.queued && !self.polling && !self.rewake,
            Phase::Polling => !self.queued && self.polling,
            Phase::Waiting => !self.queued && !self.polling && !self.rewake,
            Phase::Completed => !self.queued && !self.polling && !self.rewake,
            Phase::Cancelled => !(self.queued && self.polling) && !self.rewake,
        }
    }

    /// One transition of the scheduling protocol.
    pub open spec fn step(self, e: Event) -> (CellModel, Action) {
        match e {
            Event::Wake => match self.phase {
                Phase::Created | Phase::Waiting => (
                    CellModel { phase: Phase::Scheduled, queued: true, ..self },
                    Action::Submit,
                ),
                Phase::Polling => (CellModel { rewake: true, ..self }, Action::Idle),
                _ => (self, Action::Idle),
            },
            Event::RunJob => match self.phase {
                Phase::Scheduled => (
                    CellModel { phase: Phase::Polling, queued: false, polling: true, ..self },
                    Action::Poll,
                ),
                Phase::Cancelled => (CellModel { queued: false, ..self }, Action::Idle),
                _ => (self, Action::Idle),
            },
            Event::PollDone(ready) => match self.phase {
                Phase::Polling => if ready {
                    (
                        CellModel { phase: Phase::Completed, polling: false, rewake: false, ..self },
                        Action::Deliver,
                    )
                } else if self.rewake {
                    (
                        CellModel {
                            phase: Phase::Scheduled,
                            queued: true,
                            polling: false,
                            rewake: false,
                        },
                        Action::Submit,
                    )
                } else {
                    (CellModel { phase: Phase::Waiting, polling: false, ..self }, Action::Idle)
                },
                Phase::Cancelled => if self.polling {
                    (
                        CellModel { polling: false, ..self },
                        if ready { Action::Discard } else { Action::Idle },
                    )
                } else {
                    (self, Action::Idle)
                },
                _ => (self, Action::Idle),
            },
            Event::Failed => match self.phase {
                Phase::Polling => (
                    CellModel {
                        phase: Phase::Cancelled,
                        queued: false,
                        polling: false,
                        rewake: false,
                    },
                    Action::Idle,
                ),
                Phase::Cancelled => (CellModel { polling: false, ..self }, Action::Idle),
                _ => (self, Action::Idle),
            },
            Event::Cancel => match self.phase {
                Phase::Completed => (self, Action::Idle),
                _ => (CellModel { phase: Phase::Cancelled, rewake: false, ..self }, Action::Idle),
            },
        }
    }
}

impl CellModel {
    /// The state after a sequence of events.
    pub open spec fn run(self, es: Seq<Event>) -> CellModel
        decreases es.len(),
    {
        if es.len() == 0 {
            self
        } else {
            self.step(es[0]).0.run(es.drop_first())
        }
    }

    /// How often action `a` is asked for along a sequence of events.
    pub open spec fn count(self, es: Seq<Event>, a: Action) -> nat
        decreases es.len(),
    {
        if es.len() == 0 {
            0
        } else {
            (if self.step(es[0]).1 == a { 1nat } else { 0nat }) + self.step(es[0]).0.count(
                es.drop_first(),
                a,
            )
        }
    }
}

/// Every transition keeps the cell well formed, with at most one poll-execution
/// job queued or running; a poll is granted only to the queued job, when no poll
/// step runs, and a job is submitted only when none is queued or running.
pub proof fn lemma_step_keeps_one_job(c: CellModel, e: Event)
    requires
        c.wf(),
    ensures
        c.step(e).0.wf(),
        c.step(e).0.jobs() <= 1,
        c.step(e).1 == Action::Poll ==> c.queued && !c.polling && c.step(e).0.polling,
        c.step(e).1 == Action::Submit ==> !c.queued && c.step(e).0.queued && !c.step(e).0.polling,
{
}

/// Under any sequence of events, wake-ups included, a well-formed cell never
/// has two poll-execution jobs queued or running at once.
pub proof fn lemma_at_most_one_active_poll(c: CellModel, es: Seq<Event>)
    requires
        c.wf(),
    ensures
        c.run(es).wf(),
        c.run(es).jobs() <= 1,
    decreases es.len(),
{
    if es.len() > 0 {
        lemma_step_keeps_one_job(c, es[0]);
        lemma_at_most_one_active_poll(c.step(es[0]).0, es.drop_first());
    }
}

/// A completed cell stays as it is and asks for nothing, whatever happens.
pub proof fn lemma_completed_is_final(c: CellModel, es: Seq<Event>)
    requires
        c.phase == Phase::Completed,
    ensures
        c.run(es) == c,
        forall|a: Action| a != Action::Idle ==> c.count(es, a) == 0,
    decreases es.len(),
{
    if es.len() > 0 {
        lemma_completed_is_final(c, es.drop_first());
        assert(c.step(es[0]) == (c, Action::Idle));
        assert forall|a: Action| a != Action::Idle implies c.count(es, a) == 0 by {
            assert(c.count(es.drop_first(), a) == 0);
        }
    }
}

/// Once the handle is dropped, the cell never completes: no job is submitted,
/// no poll is granted and no value is delivered, whatever happens after.
pub proof fn lemma_cancellation_is_terminal(c: CellModel, es: Seq<Event>)
    requires
        c.phase != Phase::Completed,
    ensures
        c.step(Event::Cancel).0.phase == Phase::Cancelled,
        c.step(Event::Cancel).0.run(es).phase == Phase::Cancelled,
        c.step(Event::Cancel).0.count(es, Action::Deliver) == 0,
        c.step(Event::Cancel).0.count(es, Action::Submit) == 0,
        c.step(Event::Cancel).0.count(es, Action::Poll) == 0,
    decreases es.len(),
{
    lemma_cancelled_stays(c.step(Event::Cancel).0, es);
}

proof fn lemma_cancelled_stays(c: CellModel, es: Seq<Event>)
    requires
        c.phase == Phase::Cancelled,
    ensures
        c.run(es).phase == Phase::Cancelled,
        c.count(es, Action::Deliver) == 0,
        c.count(es, Action::Submit) == 0,
        c.count(es, Action::Poll) == 0,
    decreases es.len(),
{
    if es.len() > 0 {
        lemma_cancelled_stays(c.step(es[0]).0, es.drop_first());
    }
}

/// A value is delivered at most once along any sequence of events, and never
/// again by a cell that has completed or been cancelled.
pub proof fn lemma_delivery_at_most_once(c: CellModel, es: Seq<Event>)
    requires
        c.wf(),
    ensures
        c.count(es, Action::Deliver) <= 1,
        c.phase == Phase::Completed || c.phase == Phase::Cancelled ==> c.count(es, Action::Deliver) == 0,
    decreases es.len(),
{
    if es.len() > 0 {
        let n = c.step(es[0]).0;
        lemma_step_keeps_one_job(c, es[0]);
        lemma_delivery_at_most_once(n, es.drop_first());
        if c.phase == Phase::Cancelled {
            lemma_cancelled_stays(c, es);
        }
        if c.step(es[0]).1 == Action::Deliver {
            lemma_completed_is_final(n, es.drop_first());
        }
    }
}

/// Dropping the handle of a completed cell changes nothing and asks for nothing.
pub proof fn lemma_drop_after_completion(c: CellModel)
    requires
        c.phase == Phase::Completed,
    ensures
        c.step(Event::Cancel) == (c, Action::Idle),
{
}

/// A wake-up never polls inline on the waking thread: the only event that
/// grants a poll is a job starting on a compute worker.
pub proof fn lemma_poll_only_on_worker(c: CellModel, e: Event)
    ensures
        c.step(e).1 == Action::Poll ==> e == Event::RunJob,
        c.step(Event::Wake).1 != Action::Poll,
{
}

/// A schedulable cell wrapping one suspended computation: the bookkeeping that
/// decides when it is submitted, polled, completed or retired.
pub struct TaskCell {
    phase: Phase,
    queued: bool,
    polling: bool,
    rewake: bool,
}

impl View for TaskCell {
    type V = CellModel;

    closed spec fn view(&self) -> CellModel {
        CellModel { phase: self.phase, queued: self.queued, polling: self.polling, rewake: self.rewake }
    }
}

impl TaskCell {
    pub fn new() -> (r: TaskCell)
        ensures
            r@ == CellModel::initial(),
            r@.wf(),
    {
        TaskCell { phase: Phase::Created, queued: false, polling: false, rewake: false }
    }

    pub fn phase(&self) -> (r: Phase)
        ensures
            r == self@.phase,
    {
        self.phase
    }

    fn set(&mut self, m: (Phase, bool, bool, bool))
        ensures
            final(self)@ == (CellModel { phase: m.0, queued: m.1, polling: m.2, rewake: m.3 }),
    {
        self.phase = m.0;
        self.queued = m.1;
        self.polling = m.2;
        self.rewake = m.3;
    }

    /// Feeds one event to the cell and returns what its runner must do.
    pub fn handle(&mut self, e: Event) -> (r: Action)
        ensures
            (final(self)@, r) == old(self)@.step(e),
    {
        match e {
            Event::Wake => match self.phase {
                Phase::Created | Phase::Waiting => {
                    self.phase = Phase::Scheduled;
                    self.queued = true;
                    Action::Submit
                },
                Phase::Polling => {
                    self.rewake = true;
                    Action::Idle
                },
                _ => Action::Idle,
            },
            Event::RunJob => match self.phase {
                Phase::Scheduled => {
                    self.set((Phase::Polling, false, true, self.rewake));
                    Action::Poll
                },
                Phase::Cancelled => {
                    self.queued = false;
                    Action::Idle
                },
                _ => Action::Idle,
            },
            Event::PollDone(ready) => match self.phase {
                Phase::Polling => if ready {
                    self.set((Phase::Completed, self.queued, false, false));
                    Action::Deliver
                } else if self.rewake {
                    self.set((Phase::Scheduled, true, false, false));
                    Action::Submit
                } else {
                    self.phase = Phase::Waiting;
                    self.polling = false;
                    Action::Idle
                },
                Phase::Cancelled => if self.polling {
                    self.polling = false;
                    if ready {
                        Action::Discard
                    } else {
                        Action::Idle
                    }
                } else {
                    Action::Idle
                },
                _ => Action::Idle,
            },
            Event::Failed => match self.phase {
                Phase::Polling => {
                    self.set((Phase::Cancelled, false, false, false));
                    Action::Idle
                },
                Phase::Cancelled => {
                    self.polling = false;
                    Action::Idle
                },
                _ => Action::Idle,
            },
            Event::Cancel => match self.phase {
                Phase::Completed => Action::Idle,
                _ => {
                    self.phase = Phase::Cancelled;
                    self.rewake = false;
                    Action::Idle
                },
            },
        }
    }
}

} // verus!
