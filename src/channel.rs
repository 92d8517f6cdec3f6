//! The send side of a data channel: a one-way `Pending -> Open` latch and
//! a write-once error cell, fed by the native layer's events, deciding
//! what each `send` does.
use vstd::prelude::*;

verus! {

/// Why a send on a data channel failed.
#[derive(Debug, Clone, PartialEq, Eq)]
pub enum DataChannelError {
    /// The channel closed before it ever opened.
    Closed,
    /// The native layer reported this error.
    UnderlyingError(String),
}

pub enum DataChannelErrorModel {
    Closed,
    UnderlyingError(Seq<char>),
}

impl View for DataChannelError {
    type V = DataChannelErrorModel;

    open spec fn view(&self) -> DataChannelErrorModel {
        match self {
            DataChannelError::Closed => DataChannelErrorModel::Closed,
            DataChannelError::UnderlyingError(m) => DataChannelErrorModel::UnderlyingError(m@),
        }
    }
}

/// Where a channel stands with respect to opening.
#[derive(Debug, Clone, Copy, PartialEq, Eq, Structural)]
pub enum OpenPhase {
    /// Not open yet; a send waits for the open notification.
    Pending,
    /// Opened; stays so.
    Open,
    /// Closed without ever opening; no open notification will come.
    ClosedBeforeOpen,
}

/// An event raised by the native layer for one channel.
pub enum ChannelEvent {
    Opened,
    Closed,
    Errored(Seq<char>),
}

/// What a `send` does next.
#[derive(Debug, Clone, PartialEq, Eq)]
pub enum SendStep {
    /// Return this error without writing.
    Fail(DataChannelError),
    /// Suspend until the next event for this channel.
    Wait,
    /// Write the message now.
    Write,
}

/// The state of a channel as a mathematical value.
pub struct ChannelView {
    pub phase: OpenPhase,
    pub error: Option<Seq<char>>,
}

/// The send-side state of one data channel.
pub struct ChannelState {
    phase: OpenPhase,
    error: Option<String>,
}

impl View for ChannelState {
    type V = ChannelView;

    closed spec fn view(&self) -> ChannelView {
        ChannelView {
            phase: self.phase,
            error: match self.error {
                Some(m) => Some(m@),
                None => None,
            },
        }
    }
}

/// The effect of one event: an open notification opens a pending channel,
/// a close before opening makes the wait fail, and the first error is kept
/// for good.
pub open spec fn apply_event(v: ChannelView, e: ChannelEvent) -> ChannelView {
    match e {
        ChannelEvent::Opened => ChannelView {
            phase: if v.phase == OpenPhase::Pending {
                OpenPhase::Open
            } else {
                v.phase
            },
            ..v
        },
        ChannelEvent::Closed => ChannelView {
            phase: if v.phase == OpenPhase::Pending {
                OpenPhase::ClosedBeforeOpen
            } else {
                v.phase
            },
            ..v
        },
        ChannelEvent::Errored(m) => ChannelView {
            error: if v.error is None {
                Some(m)
            } else {
                v.error
            },
            ..v
        },
    }
}

/// The effect of a sequence of events, in order.
pub open spec fn apply_events(v: ChannelView, es: Seq<ChannelEvent>) -> ChannelView
    decreases es.len(),
{
    if es.len() == 0 {
        v
    } else {
        apply_events(apply_event(v, es[0]), es.skip(1))
    }
}

/// What `send` does in state `v`: a recorded error comes first, then the
/// open latch.
pub open spec fn send_step(v: ChannelView) -> SendStepModel {
    match v.error {
        Some(m) => SendStepModel::Fail(DataChannelErrorModel::UnderlyingError(m)),
        None => match v.phase {
            OpenPhase::Pending => SendStepModel::Wait,
            OpenPhase::Open => SendStepModel::Write,
            OpenPhase::ClosedBeforeOpen => SendStepModel::Fail(DataChannelErrorModel::Closed),
        },
    }
}

pub enum SendStepModel {
    Fail(DataChannelErrorModel),
    Wait,
    Write,
}

impl View for SendStep {
    type V = SendStepModel;

    open spec fn view(&self) -> SendStepModel {
        match self {
            SendStep::Fail(e) => SendStepModel::Fail(e@),
            SendStep::Wait => SendStepModel::Wait,
            SendStep::Write => SendStepModel::Write,
        }
    }
}

/// A freshly created or accepted channel.
pub open spec fn fresh_channel() -> ChannelView {
    ChannelView { phase: OpenPhase::Pending, error: None }
}

impl ChannelState {
    /// The state of a channel just created or accepted: pending, no error.
    pub fn new() -> (r: ChannelState)
        ensures
            r@ == fresh_channel(),
    {
        ChannelState { phase: OpenPhase::Pending, error: None }
    }

    pub fn phase(&self) -> (r: OpenPhase)
        ensures
            r == self@.phase,
    {
        self.phase
    }

    /// The error recorded for the channel, if any.
    pub fn error(&self) -> (r: Option<String>)
        ensures
            r matches Some(m) ==> self@.error == Some(m@),
            r is None <==> self@.error is None,
    {
        match &self.error {
            Some(m) => Some(m.clone()),
            None => None,
        }
    }

    /// The native layer reports that the channel opened.
    pub fn on_open(&mut self)
        ensures
            final(self)@ == apply_event(old(self)@, ChannelEvent::Opened),
    {
        if self.phase == OpenPhase::Pending {
            self.phase = OpenPhase::Open;
        }
    }

    /// The native layer reports that the channel closed.
    pub fn on_closed(&mut self)
        ensures
            final(self)@ == apply_event(old(self)@, ChannelEvent::Closed),
    {
        if self.phase == OpenPhase::Pending {
            self.phase = OpenPhase::ClosedBeforeOpen;
        }
    }

    /// The native layer reports an error; only the first one is kept.
    pub fn on_error(&mut self, message: String)
        ensures
            final(self)@ == apply_event(old(self)@, ChannelEvent::Errored(message@)),
    {
        if self.error.is_none() {
            self.error = Some(message);
        }
    }

    /// What a `send` does now: fail with the recorded error, if any; else
    /// wait while pending, write once open, and fail with `Closed` if the
    /// channel closed before opening.
    pub fn send_step(&self) -> (r: SendStep)
        ensures
            r@ == send_step(self@),
    {
        match &self.error {
            Some(m) => SendStep::Fail(DataChannelError::UnderlyingError(m.clone())),
            None => match self.phase {
                OpenPhase::Pending => SendStep::Wait,
                OpenPhase::Open => SendStep::Write,
                OpenPhase::ClosedBeforeOpen => SendStep::Fail(DataChannelError::Closed),
            },
        }
    }
}

/// Whether `es` holds an open notification.
pub open spec fn has_open(es: Seq<ChannelEvent>) -> bool {
    exists|i: int| 0 <= i < es.len() && es[i] is Opened
}

/// A fresh channel never lets a send write unless an open notification
/// has arrived: after events without one, `send` waits or fails.
pub proof fn lemma_no_write_without_open(es: Seq<ChannelEvent>)
    ensures
        !has_open(es) ==> !(send_step(apply_events(fresh_channel(), es)) is Write),
{
    lemma_not_open_stays(fresh_channel(), es);
}

proof fn lemma_not_open_stays(v: ChannelView, es: Seq<ChannelEvent>)
    requires
        v.phase != OpenPhase::Open,
    ensures
        !has_open(es) ==> apply_events(v, es).phase != OpenPhase::Open,
    decreases es.len(),
{
    if es.len() > 0 && !has_open(es) {
        assert(!(es[0] is Opened));
        assert forall|i: int| 0 <= i < es.skip(1).len() implies !(es.skip(1)[i] is Opened) by {
            assert(es.skip(1)[i] == es[i + 1]);
        }
        lemma_not_open_stays(apply_event(v, es[0]), es.skip(1));
    }
}

/// A channel that closes before it opens fails every later send with
/// `Closed` (or with a recorded error), whatever events follow.
pub proof fn lemma_closed_before_open(es: Seq<ChannelEvent>)
    ensures
        ({
            let v = apply_events(apply_event(fresh_channel(), ChannelEvent::Closed), es);
            send_step(v) matches SendStepModel::Fail(_)
        }),
{
    lemma_closed_stays(apply_event(fresh_channel(), ChannelEvent::Closed), es);
}

proof fn lemma_closed_stays(v: ChannelView, es: Seq<ChannelEvent>)
    requires
        v.phase == OpenPhase::ClosedBeforeOpen,
    ensures
        apply_events(v, es).phase == OpenPhase::ClosedBeforeOpen,
    decreases es.len(),
{
    if es.len() > 0 {
        lemma_closed_stays(apply_event(v, es[0]), es.skip(1));
    }
}

/// A send that waits on a pending channel without an error proceeds to
/// write when the open notification arrives, and fails with `Closed` when
/// the channel closes first.
pub proof fn lemma_pending_send_resolves(v: ChannelView)
    requires
        v.phase == OpenPhase::Pending,
        v.error is None,
    ensures
        send_step(v) == SendStepModel::Wait,
        send_step(apply_event(v, ChannelEvent::Opened)) == SendStepModel::Write,
        send_step(apply_event(v, ChannelEvent::Closed)) == SendStepModel::Fail(
            DataChannelErrorModel::Closed,
        ),
{
}

/// Once an error is recorded, every later send fails with exactly that
/// error, whatever events follow, an open notification included.
pub proof fn lemma_error_is_sticky(v: ChannelView, es: Seq<ChannelEvent>)
    requires
        v.error is Some,
    ensures
        apply_events(v, es).error == v.error,
        send_step(apply_events(v, es)) == SendStepModel::Fail(
            DataChannelErrorModel::UnderlyingError(v.error->0),
        ),
    decreases es.len(),
{
    if es.len() > 0 {
        lemma_error_is_sticky(apply_event(v, es[0]), es.skip(1));
    }
}

/// The open latch never goes back: an open channel stays open.
pub proof fn lemma_open_is_final(v: ChannelView, es: Seq<ChannelEvent>)
    requires
        v.phase == OpenPhase::Open,
    ensures
        apply_events(v, es).phase == OpenPhase::Open,
    decreases es.len(),
{
    if es.len() > 0 {
        lemma_open_is_final(apply_event(v, es[0]), es.skip(1));
    }
}

} // verus!

verus! {

/// What a receiver of a `Slot` gets.
pub enum Delivery<T> {
    /// The next item.
    Item(T),
    /// The producer closed and nothing is left.
    Ended,
    /// Nothing yet; wait for the producer.
    Wait,
}

/// A single-slot hand-off from a producer that must not block to one
/// consumer: an item offered while the slot is full is dropped.
pub struct Slot<T> {
    item: Option<T>,
}

impl<T> Slot<T> {
    pub closed spec fn held(&self) -> Option<T> {
        self.item
    }

    pub fn new() -> (r: Slot<T>)
        ensures
            r.held() is None,
    {
        Slot { item: None }
    }

    /// Puts `x` in the slot if it is empty; returns whether it was taken.
    /// A full slot keeps its item and `x` is dropped.
    pub fn offer(&mut self, x: T) -> (r: bool)
        ensures
            r == (old(self).held() is None),
            r ==> final(self).held() == Some(x),
            !r ==> final(self).held() == old(self).held(),
    {
        if self.item.is_none() {
            self.item = Some(x);
            true
        } else {
            false
        }
    }

    /// What a receiver gets now: the held item, taken out; else the end of
    /// the sequence once the producer has `closed`; else it must wait.
    pub fn receive_step(&mut self, closed: bool) -> (r: Delivery<T>)
        ensures
            final(self).held() is None,
            old(self).held() matches Some(x) ==> r == Delivery::Item(x),
            old(self).held() is None ==> (closed ==> r == Delivery::<T>::Ended),
            old(self).held() is None ==> (!closed ==> r == Delivery::<T>::Wait),
    {
        match self.item.take() {
            Some(x) => Delivery::Item(x),
            None => if closed {
                Delivery::Ended
            } else {
                Delivery::Wait
            },
        }
    }

    /// Takes the item out, leaving the slot empty.
    pub fn take(&mut self) -> (r: Option<T>)
        ensures
            r == old(self).held(),
            final(self).held() is None,
    {
        let r = self.item.take();
        r
    }
}

} // verus!
