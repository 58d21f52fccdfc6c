use vstd::prelude::*;

verus! {

/// What the receiving end observes when it looks at the channel.
#[derive(Debug, PartialEq, Eq)]
pub enum Recv<T> {
    /// No value yet, and the sending end may still send one.
    Pending,
    /// The channel resolved: `Some` with the value, or `None` when the sending
    /// end went away without a value, or the value was already taken.
    Ready(Option<T>),
}

/// The abstract state of a result channel.
pub struct ChannelModel<T> {
    /// The value sent and not yet received.
    pub value: Option<T>,
    /// A value has been sent; no other will be accepted.
    pub sent: bool,
    /// The sending end was dropped (the computation failed or went away).
    pub sender_closed: bool,
    /// The receiving end was dropped (the handle was cancelled).
    pub receiver_closed: bool,
}

/// An operation on a result channel.
pub enum ChanOp<T> {
    Send(T),
    CloseSender,
    CloseReceiver,
    Receive,
}

impl<T> ChannelModel<T> {
    pub open spec fn fresh() -> ChannelModel<T> {
        ChannelModel { value: None, sent: false, sender_closed: false, receiver_closed: false }
    }

    /// A value waits only in a channel that accepted it and whose receiver is alive.
    pub open spec fn wf(self) -> bool {
        self.value is Some ==> self.sent && !self.receiver_closed
    }

    /// Sending: accepted once, into an open channel; otherwise the value comes back.
    pub open spec fn send(self, v: T) -> (ChannelModel<T>, Result<(), T>) {
        if self.sent || self.sender_closed || self.receiver_closed {
            (self, Err(v))
        } else {
            (ChannelModel { value: Some(v), sent: true, ..self }, Ok(()))
        }
    }

    pub open spec fn close_sender(self) -> ChannelModel<T> {
        ChannelModel { sender_closed: true, ..self }
    }

    /// Dropping the receiving end drops any value waiting in the channel.
    pub open spec fn close_receiver(self) -> ChannelModel<T> {
        ChannelModel { value: None, receiver_closed: true, ..self }
    }

    pub open spec fn receive(self) -> (ChannelModel<T>, Recv<T>) {
        match self.value {
            Some(v) => (ChannelModel { value: None, ..self }, Recv::Ready(Some(v))),
            None => if self.sent || self.sender_closed || self.receiver_closed {
                (self, Recv::Ready(None))
            } else {
                (self, Recv::Pending)
            },
        }
    }

    pub open spec fn apply(self, op: ChanOp<T>) -> (ChannelModel<T>, Recv<T>) {
        match op {
            ChanOp::Send(v) => (self.send(v).0, Recv::Pending),
            ChanOp::CloseSender => (self.close_sender(), Recv::Pending),
            ChanOp::CloseReceiver => (self.close_receiver(), Recv::Pending),
            ChanOp::Receive => self.receive(),
        }
    }

    /// How many values the receiving end gets along a sequence of operations.
    pub open spec fn received(self, ops: Seq<ChanOp<T>>) -> nat
        decreases ops.len(),
    {
        if ops.len() == 0 {
            0
        } else {
            (if self.apply(ops[0]).1 is Ready && self.apply(ops[0]).1->Ready_0 is Some {
                1nat
            } else {
                0nat
            }) + self.apply(ops[0]).0.received(ops.drop_first())
        }
    }
}

/// A once-sent channel has no value left to hand out, whatever happens next.
pub proof fn lemma_spent_channel_gives_nothing<T>(c: ChannelModel<T>, ops: Seq<ChanOp<T>>)
    requires
        c.sent,
        c.value is None,
    ensures
        c.received(ops) == 0,
    decreases ops.len(),
{
    if ops.len() > 0 {
        lemma_spent_channel_gives_nothing(c.apply(ops[0]).0, ops.drop_first());
    }
}

/// Along any sequence of operations the receiving end gets at most one value.
pub proof fn lemma_received_at_most_once<T>(c: ChannelModel<T>, ops: Seq<ChanOp<T>>)
    requires
        c.wf(),
    ensures
        c.received(ops) <= 1,
    decreases ops.len(),
{
    if ops.len() > 0 {
        let n = c.apply(ops[0]).0;
        lemma_received_at_most_once(n, ops.drop_first());
        if c.apply(ops[0]).1 is Ready && c.apply(ops[0]).1->Ready_0 is Some {
            lemma_spent_channel_gives_nothing(n, ops.drop_first());
        }
    }
}

/// A value sent into a fresh channel is received exactly once: the first look
/// yields it, every later look yields `None`.
pub proof fn lemma_value_received_exactly_once<T>(v: T, ops: Seq<ChanOp<T>>)
    ensures
        ChannelModel::<T>::fresh().send(v).1 == Ok::<(), T>(()),
        ChannelModel::<T>::fresh().send(v).0.receive().1 == Recv::Ready(Some(v)),
        ChannelModel::<T>::fresh().send(v).0.receive().0.receive().1 == Recv::<T>::Ready(None),
        ChannelModel::<T>::fresh().send(v).0.receive().0.received(ops) == 0,
{
    lemma_spent_channel_gives_nothing(ChannelModel::<T>::fresh().send(v).0.receive().0, ops);
}

/// A computation that fails before sending leaves its receiver with `None`.
pub proof fn lemma_failure_yields_none<T>(c: ChannelModel<T>)
    requires
        !c.sent,
        c.wf(),
    ensures
        c.close_sender().receive().1 == Recv::<T>::Ready(None),
{
}

/// Sending after the receiving end was dropped changes nothing and hands the
/// value back: it is no error.
pub proof fn lemma_send_after_drop_is_noop<T>(c: ChannelModel<T>, v: T)
    requires
        c.receiver_closed,
    ensures
        c.send(v) == (c, Err::<(), T>(v)),
{
}

/// A single-producer, single-consumer channel that carries at most one value
/// from a finished computation to its handle.
pub struct ResultChannel<T> {
    value: Option<T>,
    sent: bool,
    sender_closed: bool,
    receiver_closed: bool,
}

impl<T> View for ResultChannel<T> {
    type V = ChannelModel<T>;

    closed spec fn view(&self) -> ChannelModel<T> {
        ChannelModel {
            value: self.value,
            sent: self.sent,
            sender_closed: self.sender_closed,
            receiver_closed: self.receiver_closed,
        }
    }
}

impl<T> ResultChannel<T> {
    pub fn new() -> (r: ResultChannel<T>)
        ensures
            r@ == ChannelModel::<T>::fresh(),
    {
        ResultChannel { value: None, sent: false, sender_closed: false, receiver_closed: false }
    }

    /// Sends the value; hands it back when the channel no longer takes one.
    pub fn send(&mut self, v: T) -> (r: Result<(), T>)
        ensures
            (final(self)@, r) == old(self)@.send(v),
    {
        if self.sent || self.sender_closed || self.receiver_closed {
            Err(v)
        } else {
            self.value = Some(v);
            self.sent = true;
            Ok(())
        }
    }

    /// The sending end goes away.
    pub fn close_sender(&mut self)
        ensures
            final(self)@ == old(self)@.close_sender(),
    {
        self.sender_closed = true;
    }

    /// The receiving end goes away, dropping any value that waits.
    pub fn close_receiver(&mut self)
        ensures
            final(self)@ == old(self)@.close_receiver(),
    {
        self.value = None;
        self.receiver_closed = true;
    }

    /// Looks for the outcome, taking the value if one waits.
    pub fn receive(&mut self) -> (r: Recv<T>)
        ensures
            (final(self)@, r) == old(self)@.receive(),
    {
        match self.value.take() {
            Some(v) => Recv::Ready(Some(v)),
            None => if self.sent || self.sender_closed || self.receiver_closed {
                Recv::Ready(None)
            } else {
                Recv::Pending
            },
        }
    }
}

} // verus!
