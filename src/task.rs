use crate::cell::{lemma_step_keeps_one_job, Action, CellModel, Event, Phase, TaskCell};
use crate::channel::{lemma_spent_channel_gives_nothing, ChanOp, ChannelModel, Recv, ResultChannel};
use vstd::prelude::*;

verus! {

/// The abstract state of a spawned task: its cell and its result channel.
pub struct TaskModel<T> {
    pub cell: CellModel,
    pub chan: ChannelModel<T>,
}

impl<T> TaskModel<T> {
    pub open spec fn initial() -> TaskModel<T> {
        TaskModel { cell: CellModel::initial(), chan: ChannelModel::fresh() }
    }

    pub open spec fn wf(self) -> bool {
        &&& self.cell.wf()
        &&& self.chan.wf()
        &&& self.chan.sent ==> self.cell.phase == Phase::Completed
        &&& self.cell.phase == Phase::Completed ==> self.chan.sent || self.chan.sender_closed
            || self.chan.receiver_closed
        &&& self.cell.phase == Phase::Cancelled ==> self.chan.sender_closed
            || self.chan.receiver_closed
    }

    /// The cell completed or retired: the computation is no longer needed, and
    /// whoever awaits the handle can be woken to collect the outcome.
    pub open spec fn settled(self) -> bool {
        self.cell.phase == Phase::Completed || self.cell.phase == Phase::Cancelled
    }

    /// A poll step ended with `out`: `Some` when the computation finished.
    /// A delivered value goes into the channel; a discarded one is dropped.
    pub open spec fn finish_poll(self, out: Option<T>) -> (TaskModel<T>, Action) {
        let (cell, a) = self.cell.step(Event::PollDone(out is Some));
        if a == Action::Deliver {
            (TaskModel { cell, chan: self.chan.send(out->Some_0).0 }, a)
        } else {
            (TaskModel { cell, chan: self.chan }, a)
        }
    }

    /// The computation failed during a poll step: the cell retires and the
    /// sending end goes away without a value.
    pub open spec fn fail(self) -> TaskModel<T> {
        TaskModel {
            cell: self.cell.step(Event::Failed).0,
            chan: self.chan.close_sender(),
        }
    }

    /// The handle was dropped: the cell is cancelled and any value dropped.
    pub open spec fn cancel(self) -> TaskModel<T> {
        TaskModel { cell: self.cell.step(Event::Cancel).0, chan: self.chan.close_receiver() }
    }
}

/// A task whose poll step finishes with a value while its handle is alive
/// yields that value exactly once: the first look gets `Some(v)`, every later
/// look `None`, and no other value ever comes.
pub proof fn lemma_completed_task_yields_once<T>(t: TaskModel<T>, v: T, ops: Seq<ChanOp<T>>)
    requires
        t.wf(),
        t.cell.phase == Phase::Polling,
        !t.chan.sender_closed,
        !t.chan.receiver_closed,
    ensures
        t.finish_poll(Some(v)).1 == Action::Deliver,
        t.finish_poll(Some(v)).0.cell.phase == Phase::Completed,
        t.finish_poll(Some(v)).0.chan.receive().1 == Recv::Ready(Some(v)),
        t.finish_poll(Some(v)).0.chan.receive().0.receive().1 == Recv::<T>::Ready(None),
        t.finish_poll(Some(v)).0.chan.receive().0.received(ops) == 0,
{
    lemma_spent_channel_gives_nothing(t.finish_poll(Some(v)).0.chan.receive().0, ops);
}

/// A task whose handle was dropped before completion never puts a value in
/// its channel, whatever its in-flight poll step ends with.
pub proof fn lemma_cancelled_task_delivers_nothing<T>(t: TaskModel<T>, out: Option<T>)
    requires
        t.wf(),
        t.cell.phase != Phase::Completed,
    ensures
        t.cancel().cell.phase == Phase::Cancelled,
        t.cancel().chan.value is None,
        t.cancel().finish_poll(out).1 != Action::Deliver,
        t.cancel().finish_poll(out).0.chan == t.cancel().chan,
        t.cancel().finish_poll(out).0.cell.phase == Phase::Cancelled,
{
}

/// A computation that fails during its poll step resolves its handle to
/// `None`, as a cancelled one would; its cell retires with no job queued or
/// running, even when a wake-up arrived during the step.
pub proof fn lemma_failed_task_yields_none<T>(t: TaskModel<T>)
    requires
        t.wf(),
        t.cell.phase == Phase::Polling,
    ensures
        t.fail().cell.phase == Phase::Cancelled,
        t.fail().cell.jobs() == 0,
        t.fail().chan.receive().1 == Recv::<T>::Ready(None),
{
}

/// Once a task is settled its handle never waits again: looking at the
/// channel yields a value or `None`.
pub proof fn lemma_settled_task_resolves<T>(t: TaskModel<T>)
    requires
        t.wf(),
        t.settled(),
    ensures
        t.chan.receive().1 != Recv::<T>::Pending,
{
}

/// A spawned task: the scheduling cell of one computation together with the
/// channel through which its value reaches the handle.
pub struct Task<T> {
    cell: TaskCell,
    chan: ResultChannel<T>,
}

impl<T> View for Task<T> {
    type V = TaskModel<T>;

    closed spec fn view(&self) -> TaskModel<T> {
        TaskModel { cell: self.cell@, chan: self.chan@ }
    }
}

impl<T> Task<T> {
    pub fn new() -> (r: Task<T>)
        ensures
            r@ == TaskModel::<T>::initial(),
            r@.wf(),
    {
        Task { cell: TaskCell::new(), chan: ResultChannel::new() }
    }

    pub fn phase(&self) -> (r: Phase)
        ensures
            r == self@.cell.phase,
    {
        self.cell.phase()
    }

    /// Whether the computation can be dropped and the handle woken.
    pub fn is_settled(&self) -> (r: bool)
        ensures
            r == self@.settled(),
    {
        match self.cell.phase() {
            Phase::Completed | Phase::Cancelled => true,
            _ => false,
        }
    }

    /// The computation asks to make progress; `Submit` asks the runner to hand
    /// one poll-execution job to the compute-worker pool.
    pub fn wake(&mut self) -> (r: Action)
        ensures
            (final(self)@.cell, r) == old(self)@.cell.step(Event::Wake),
            final(self)@.chan == old(self)@.chan,
            old(self)@.wf() ==> final(self)@.wf(),
    {
        proof {
            if self@.wf() {
                lemma_step_keeps_one_job(self@.cell, Event::Wake);
            }
        }
        self.cell.handle(Event::Wake)
    }

    /// A poll-execution job starts; `true` when it must poll the computation,
    /// `false` when the job is a no-op.
    pub fn start_job(&mut self) -> (r: bool)
        ensures
            final(self)@.cell == old(self)@.cell.step(Event::RunJob).0,
            r == (old(self)@.cell.step(Event::RunJob).1 == Action::Poll),
            final(self)@.chan == old(self)@.chan,
            old(self)@.wf() ==> final(self)@.wf(),
    {
        proof {
            if self@.wf() {
                lemma_step_keeps_one_job(self@.cell, Event::RunJob);
            }
        }
        let a = self.cell.handle(Event::RunJob);
        match a {
            Action::Poll => true,
            _ => false,
        }
    }

    pub fn finish_poll(&mut self, out: Option<T>) -> (r: Action)
        requires
            old(self)@.wf(),
        ensures
            (final(self)@, r) == old(self)@.finish_poll(out),
            final(self)@.wf(),
    {
        let ready = out.is_some();
        let a = self.cell.handle(Event::PollDone(ready));
        match a {
            Action::Deliver => {
                match out {
                    Some(v) => {
                        let _ = self.chan.send(v);
                    },
                    None => {},
                }
            },
            _ => {},
        }
        a
    }

    pub fn fail(&mut self)
        requires
            old(self)@.wf(),
        ensures
            final(self)@ == old(self)@.fail(),
            final(self)@.wf(),
    {
        self.cell.handle(Event::Failed);
        self.chan.close_sender();
    }

    pub fn cancel(&mut self)
        requires
            old(self)@.wf(),
        ensures
            final(self)@ == old(self)@.cancel(),
            final(self)@.wf(),
    {
        self.cell.handle(Event::Cancel);
        self.chan.close_receiver();
    }

    /// What the handle observes: the value once, `None` for a failed task or
    /// once the value was taken, `Pending` while the task runs.
    pub fn outcome(&mut self) -> (r: Recv<T>)
        ensures
            (final(self)@.chan, r) == old(self)@.chan.receive(),
            final(self)@.cell == old(self)@.cell,
            old(self)@.wf() ==> final(self)@.wf(),
    {
        self.chan.receive()
    }
}

} // verus!
