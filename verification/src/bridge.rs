//! The listener's decisions: from its phase and the next event to the next
//! phase and the action to perform.
//!
//! The caller owns the signal stream and the channel. It feeds each event to
//! [`step`], performs the action that comes back, and goes on while the phase
//! is [`Phase::Listening`].

use vstd::prelude::*;
use crate::signals::{classify, classify_spec, SignalKind};

verus! {

/// The payload of every shutdown notification, whichever signal caused it.
pub const EXIT_CODE: i32 = 0;

/// Where the listener stands.
#[derive(Clone, Copy, Debug, PartialEq, Eq, Structural)]
pub enum Phase {
    /// Waiting for the next signal. The initial phase.
    Listening,
    /// The task has returned: the signal stream has ended, or nobody is left
    /// to notify.
    Finished,
    /// The task failed on a signal outside the set; joining it reports the
    /// failure.
    Aborted,
}

/// What the listener's surroundings report to it.
#[derive(Clone, Copy, Debug, PartialEq, Eq, Structural)]
pub enum Event {
    /// The stream yielded this signal number.
    Signal(i32),
    /// A notification could not be sent: the receiving half is gone.
    ReceiverGone,
    /// The stream yielded no more items, after its handle was closed.
    StreamEnded,
}

/// What the listener's surroundings are to do next.
#[derive(Clone, Copy, Debug, PartialEq, Eq, Structural)]
pub enum Action {
    /// Log that a reload was requested.
    LogReload,
    /// Log the start of the shutdown and send the payload on the channel.
    Notify(i32),
    /// Leave the loop: the task is done and returns normally.
    Finish,
    /// Fail the task: a signal outside the set arrived.
    Abort,
    /// Nothing: the listener is no longer running.
    Ignore,
}

/// The transition of the listener.
pub open spec fn step_spec(phase: Phase, event: Event) -> (Phase, Action) {
    match (phase, event) {
        (Phase::Listening, Event::Signal(raw)) => match classify_spec(raw as int) {
            Some(SignalKind::Reload) => (Phase::Listening, Action::LogReload),
            Some(_) => (Phase::Listening, Action::Notify(EXIT_CODE)),
            None => (Phase::Aborted, Action::Abort),
        },
        (Phase::Listening, Event::ReceiverGone) => (Phase::Finished, Action::Finish),
        (Phase::Listening, Event::StreamEnded) => (Phase::Finished, Action::Finish),
        (_, _) => (phase, Action::Ignore),
    }
}

/// What an action puts on the channel.
pub open spec fn enqueued(action: Action) -> Seq<i32> {
    match action {
        Action::Notify(payload) => seq![payload],
        _ => Seq::empty(),
    }
}

/// The phase after a run of events.
pub open spec fn phase_after(phase: Phase, events: Seq<Event>) -> Phase
    decreases events.len(),
{
    if events.len() == 0 {
        phase
    } else {
        step_spec(phase_after(phase, events.drop_last()), events.last()).0
    }
}

/// Everything a run of events puts on the channel, in the order of sending.
pub open spec fn notifications(phase: Phase, events: Seq<Event>) -> Seq<i32>
    decreases events.len(),
{
    if events.len() == 0 {
        Seq::empty()
    } else {
        notifications(phase, events.drop_last()) + enqueued(
            step_spec(phase_after(phase, events.drop_last()), events.last()).1,
        )
    }
}

/// The deliveries of the given signals, as events.
pub open spec fn deliveries(signals: Seq<SignalKind>) -> Seq<Event> {
    Seq::new(signals.len(), |i: int| Event::Signal(signals[i].number() as i32))
}

/// How many of the signals are terminating.
pub open spec fn terminating_count(signals: Seq<SignalKind>) -> nat
    decreases signals.len(),
{
    if signals.len() == 0 {
        0
    } else {
        terminating_count(signals.drop_last()) + if signals.last().terminating() {
            1nat
        } else {
            0nat
        }
    }
}

/// One step of the listener: the next phase and the action to perform.
///
/// While listening, a reload signal is logged, a terminating signal is
/// answered with one notification of payload 0, and the listener stays. The
/// end of the stream finishes it, and so does a failed send: with the
/// receiver gone the listener stops quietly. Only a number outside the signal
/// set aborts the task. Once finished or aborted, every event is ignored.
pub fn step(phase: Phase, event: Event) -> (r: (Phase, Action))
    ensures
        r == step_spec(phase, event),
{
    match phase {
        Phase::Listening => match event {
            Event::Signal(raw) => match classify(raw) {
                Some(kind) => if kind.is_terminating() {
                    (Phase::Listening, Action::Notify(EXIT_CODE))
                } else {
                    (Phase::Listening, Action::LogReload)
                },
                None => (Phase::Aborted, Action::Abort),
            },
            Event::ReceiverGone => (Phase::Finished, Action::Finish),
            Event::StreamEnded => (Phase::Finished, Action::Finish),
        },
        Phase::Finished => (Phase::Finished, Action::Ignore),
        Phase::Aborted => (Phase::Aborted, Action::Ignore),
    }
}

/// A terminating signal that reaches a listening bridge enqueues exactly one
/// notification, of payload 0, whichever of the three it is, and the bridge
/// goes on listening.
pub proof fn terminating_signal_notifies_once(kind: SignalKind)
    requires
        kind.terminating(),
    ensures
        step_spec(Phase::Listening, Event::Signal(kind.number() as i32)) == (
            Phase::Listening,
            Action::Notify(0),
        ),
        notifications(Phase::Listening, deliveries(seq![kind])) == seq![0i32],
{
    let events = deliveries(seq![kind]);
    assert(events.len() == 1);
    assert(events.last() == Event::Signal(kind.number() as i32));
    assert(events.drop_last() =~= Seq::<Event>::empty());
    assert(notifications(Phase::Listening, events.drop_last()) =~= Seq::<i32>::empty());
    assert(phase_after(Phase::Listening, events.drop_last()) == Phase::Listening);
    assert(notifications(Phase::Listening, events) =~= seq![0i32]);
}

/// Delivering one more signal of the set appends its notification, if it has
/// one, behind those already enqueued: notifications keep the receipt order.
pub proof fn delivery_appends(signals: Seq<SignalKind>, kind: SignalKind)
    ensures
        phase_after(Phase::Listening, deliveries(signals.push(kind))) == Phase::Listening,
        notifications(Phase::Listening, deliveries(signals.push(kind))) == notifications(
            Phase::Listening,
            deliveries(signals),
        ) + if kind.terminating() {
            seq![0i32]
        } else {
            Seq::<i32>::empty()
        },
    decreases signals.len(),
{
    let events = deliveries(signals.push(kind));
    assert(events.drop_last() =~= deliveries(signals));
    assert(events.last() == Event::Signal(kind.number() as i32));
    deliveries_keep_listening(signals);
}

/// A bridge that receives only signals of the set goes on listening.
pub proof fn deliveries_keep_listening(signals: Seq<SignalKind>)
    ensures
        phase_after(Phase::Listening, deliveries(signals)) == Phase::Listening,
    decreases signals.len(),
{
    if signals.len() > 0 {
        let events = deliveries(signals);
        deliveries_keep_listening(signals.drop_last());
        assert(events.drop_last() =~= deliveries(signals.drop_last()));
        assert(events.last() == Event::Signal(signals.last().number() as i32));
    }
}

/// Any sequence of signals delivered to a listening bridge enqueues exactly as
/// many notifications as it holds terminating signals, each of payload 0.
pub proof fn notifications_match_terminating_signals(signals: Seq<SignalKind>)
    ensures
        notifications(Phase::Listening, deliveries(signals)).len() == terminating_count(signals),
        forall|i: int|
            0 <= i < terminating_count(signals) ==> #[trigger] notifications(
                Phase::Listening,
                deliveries(signals),
            )[i] == 0,
    decreases signals.len(),
{
    if signals.len() > 0 {
        notifications_match_terminating_signals(signals.drop_last());
        delivery_appends(signals.drop_last(), signals.last());
        assert(signals.drop_last().push(signals.last()) =~= signals);
    }
}

/// Whether an event is a signal outside the signal set.
pub open spec fn foreign(event: Event) -> bool {
    match event {
        Event::Signal(raw) => classify_spec(raw as int).is_none(),
        _ => false,
    }
}

/// A failed send is no failure of the listener: it stops listening and the
/// task returns normally, without a notification.
pub proof fn failed_send_finishes()
    ensures
        step_spec(Phase::Listening, Event::ReceiverGone) == (Phase::Finished, Action::Finish),
        enqueued(step_spec(Phase::Listening, Event::ReceiverGone).1) == Seq::<i32>::empty(),
{
}

/// The listener fails on nothing but a signal outside the set: a run that
/// ends aborted holds such a signal.
pub proof fn only_a_foreign_signal_aborts(events: Seq<Event>)
    requires
        phase_after(Phase::Listening, events) == Phase::Aborted,
    ensures
        exists|i: int| 0 <= i < events.len() && foreign(#[trigger] events[i]),
    decreases events.len(),
{
    let front = events.drop_last();
    let last = events.len() - 1;
    if phase_after(Phase::Listening, front) == Phase::Aborted {
        only_a_foreign_signal_aborts(front);
        let i = choose|i: int| 0 <= i < front.len() && foreign(#[trigger] front[i]);
        assert(foreign(events[i]));
    } else {
        assert(foreign(events[last]));
    }
}

/// Whatever the listener is fed, from whatever phase, it enqueues at most one
/// notification per event, and every notification carries the payload 0.
pub proof fn every_notification_is_zero(phase: Phase, events: Seq<Event>)
    ensures
        notifications(phase, events).len() <= events.len(),
        forall|i: int|
            0 <= i < notifications(phase, events).len() ==> #[trigger] notifications(
                phase,
                events,
            )[i] == EXIT_CODE,
    decreases events.len(),
{
    if events.len() > 0 {
        every_notification_is_zero(phase, events.drop_last());
    }
}

/// A reload signal never enqueues a notification, in whatever phase it
/// arrives, and a run of reload signals alone leaves the channel empty.
pub proof fn reload_never_notifies(phase: Phase, signals: Seq<SignalKind>)
    requires
        forall|i: int| 0 <= i < signals.len() ==> signals[i] == SignalKind::Reload,
    ensures
        enqueued(step_spec(phase, Event::Signal(SignalKind::Reload.number() as i32)).1)
            == Seq::<i32>::empty(),
        notifications(phase, deliveries(signals)) == Seq::<i32>::empty(),
    decreases signals.len(),
{
    if signals.len() > 0 {
        let events = deliveries(signals);
        reload_never_notifies(phase, signals.drop_last());
        assert(events.drop_last() =~= deliveries(signals.drop_last()));
        assert(events.last() == Event::Signal(SignalKind::Reload.number() as i32));
        assert(notifications(phase, events) =~= Seq::<i32>::empty());
    } else {
        assert(notifications(phase, deliveries(signals)) =~= Seq::<i32>::empty());
    }
}

/// Once the listener has stopped, no event produces a notification and the
/// phase never changes again.
pub proof fn nothing_after_stop(phase: Phase, events: Seq<Event>)
    requires
        phase != Phase::Listening,
    ensures
        phase_after(phase, events) == phase,
        notifications(phase, events) == Seq::<i32>::empty(),
    decreases events.len(),
{
    if events.len() > 0 {
        nothing_after_stop(phase, events.drop_last());
        assert(notifications(phase, events) =~= Seq::<i32>::empty());
    } else {
        assert(notifications(phase, events) =~= Seq::<i32>::empty());
    }
}

/// The end of the stream finishes a listening bridge in one step, whatever it
/// has received before: with no signal at all, and after any signals of the
/// set, without adding a notification.
pub proof fn stream_end_finishes(signals: Seq<SignalKind>)
    ensures
        step_spec(Phase::Listening, Event::StreamEnded) == (Phase::Finished, Action::Finish),
        phase_after(Phase::Listening, seq![Event::StreamEnded]) == Phase::Finished,
        notifications(Phase::Listening, seq![Event::StreamEnded]) == Seq::<i32>::empty(),
        phase_after(Phase::Listening, deliveries(signals).push(Event::StreamEnded))
            == Phase::Finished,
        notifications(Phase::Listening, deliveries(signals).push(Event::StreamEnded))
            == notifications(Phase::Listening, deliveries(signals)),
{
    let alone = seq![Event::StreamEnded];
    assert(alone.drop_last() =~= Seq::<Event>::empty());
    assert(alone.last() == Event::StreamEnded);
    assert(phase_after(Phase::Listening, alone.drop_last()) == Phase::Listening);
    assert(notifications(Phase::Listening, alone.drop_last()) =~= Seq::<i32>::empty());
    assert(notifications(Phase::Listening, alone) =~= Seq::<i32>::empty());
    let events = deliveries(signals).push(Event::StreamEnded);
    assert(events.drop_last() =~= deliveries(signals));
    assert(events.last() == Event::StreamEnded);
    deliveries_keep_listening(signals);
    assert(notifications(Phase::Listening, events) =~= notifications(
        Phase::Listening,
        deliveries(signals),
    ));
}

} // verus!
