use crate::clock::{utc_now, Timestamp};
use crate::consts::POLL_TIME;
use crate::errors::{FatalError, FatalView};
use crate::ipc::{
    cycle_requests, cycle_requests_of, discovery_request, ipc_views, state_request, IPCMessage,
    IPCView,
};
use crate::payload::{compound_of, payloads_at, payloads_of, InstrumentReading, ReadingView};
use vstd::prelude::*;

verus! {

/// A question put to the instrument.
#[derive(Debug, Clone, Copy, PartialEq, Eq, Structural)]
pub enum Probe {
    /// The firmware/model identifier.
    Version,
    /// The serial number.
    Serial,
    /// The current count rate.
    Cpm,
}

/// The two states of the poll loop.
#[derive(Debug, Clone, Copy, PartialEq, Eq, Structural)]
pub enum PollState {
    Polling,
    Terminating,
}

/// Where the poll loop stands. Every phase but the last belongs to the state
/// `Polling`.
#[derive(Debug, Clone)]
pub enum PollPhase {
    /// The model identifier has been asked for.
    AwaitVersion,
    /// The serial number has been asked for.
    AwaitSerial { model: String },
    /// The count rate has been asked for.
    AwaitCpm { model: String, serial: String },
    /// One request is with the channel; `pending` follow it, first one first.
    Sending { pending: Vec<IPCMessage> },
    /// The interval to the next cycle is being waited out.
    Waiting,
    /// A fatal condition was met: the process is to end.
    Terminating { error: FatalError },
}

/// The mathematical counterpart of `PollPhase`.
pub enum PhaseView {
    AwaitVersion,
    AwaitSerial { model: Seq<char> },
    AwaitCpm { model: Seq<char>, serial: Seq<char> },
    Sending { pending: Seq<IPCView> },
    Waiting,
    Terminating { error: FatalView },
}

impl View for PollPhase {
    type V = PhaseView;

    open spec fn view(&self) -> PhaseView {
        match self {
            PollPhase::AwaitVersion => PhaseView::AwaitVersion,
            PollPhase::AwaitSerial { model } => PhaseView::AwaitSerial { model: model@ },
            PollPhase::AwaitCpm { model, serial } => PhaseView::AwaitCpm {
                model: model@,
                serial: serial@,
            },
            PollPhase::Sending { pending } => PhaseView::Sending { pending: ipc_views(pending@) },
            PollPhase::Waiting => PhaseView::Waiting,
            PollPhase::Terminating { error } => PhaseView::Terminating { error: error@ },
        }
    }
}

/// What happened outside the poll loop since its last action.
#[derive(Debug, Clone)]
pub enum PollEvent {
    /// The instrument answered with its model identifier.
    Version(String),
    /// The instrument answered with its serial number.
    Serial(String),
    /// The instrument answered with its count rate.
    Cpm(u32),
    /// The instrument failed to answer the question put to it.
    ReadFailed,
    /// The channel took the request handed to it.
    Sent,
    /// The channel is full and handed the request back.
    ChannelFull(IPCMessage),
    /// The channel is closed; the text is what it reported.
    ChannelClosed(String),
    /// The poll interval has passed.
    IntervalElapsed,
}

/// The mathematical counterpart of `PollEvent`.
pub enum EventView {
    Version(Seq<char>),
    Serial(Seq<char>),
    Cpm(u32),
    ReadFailed,
    Sent,
    ChannelFull(IPCView),
    ChannelClosed(Seq<char>),
    IntervalElapsed,
}

impl View for PollEvent {
    type V = EventView;

    open spec fn view(&self) -> EventView {
        match self {
            PollEvent::Version(s) => EventView::Version(s@),
            PollEvent::Serial(s) => EventView::Serial(s@),
            PollEvent::Cpm(n) => EventView::Cpm(*n),
            PollEvent::ReadFailed => EventView::ReadFailed,
            PollEvent::Sent => EventView::Sent,
            PollEvent::ChannelFull(m) => EventView::ChannelFull(m@),
            PollEvent::ChannelClosed(d) => EventView::ChannelClosed(d@),
            PollEvent::IntervalElapsed => EventView::IntervalElapsed,
        }
    }
}

/// What the poll loop asks to be done next.
#[derive(Debug, Clone)]
pub enum PollAction {
    /// Put this question to the instrument.
    Query(Probe),
    /// Hand this request to the outbound channel, waiting while it is full.
    Send(IPCMessage),
    /// Wait this many seconds.
    Sleep(u16),
    /// End the process with this condition.
    Exit(FatalError),
    /// Nothing new: go on with what was asked before.
    Ignore,
}

/// The mathematical counterpart of `PollAction`.
pub enum ActionView {
    Query(Probe),
    Send(IPCView),
    Sleep(u16),
    Exit(FatalView),
    Ignore,
}

impl View for PollAction {
    type V = ActionView;

    open spec fn view(&self) -> ActionView {
        match self {
            PollAction::Query(p) => ActionView::Query(*p),
            PollAction::Send(m) => ActionView::Send(m@),
            PollAction::Sleep(s) => ActionView::Sleep(*s),
            PollAction::Exit(e) => ActionView::Exit(e@),
            PollAction::Ignore => ActionView::Ignore,
        }
    }
}

/// The state that a phase belongs to.
pub open spec fn state_of_phase(phase: PhaseView) -> PollState {
    if phase is Terminating {
        PollState::Terminating
    } else {
        PollState::Polling
    }
}

/// The phase and the action with which a cycle ends.
pub open spec fn rest() -> (PhaseView, ActionView) {
    (PhaseView::Waiting, ActionView::Sleep(POLL_TIME))
}

/// Hands out the first of the requests still owed, or ends the cycle when
/// none is left.
pub open spec fn dispatch(pending: Seq<IPCView>) -> (PhaseView, ActionView) {
    if pending.len() == 0 {
        rest()
    } else {
        (PhaseView::Sending { pending: pending.drop_first() }, ActionView::Send(pending[0]))
    }
}

/// The poll loop's rule: the next phase and the action for a phase and an
/// event, where `at` is the time at which a count rate is stamped.
///
/// * `Terminating` is final: every event is answered with `Exit`.
/// * A closed channel is fatal in every other phase.
/// * A request that the full channel handed back is offered again, unchanged.
/// * An answer of the instrument moves on to the next question, and the count
///   rate to the requests of the cycle; a failed read ends the cycle.
/// * Each `Sent` releases the next request; after the last one the interval
///   is waited out, and its end starts the next cycle.
/// * Any other event is ignored.
pub open spec fn step_of(phase: PhaseView, event: EventView, at: Timestamp) -> (
    PhaseView,
    ActionView,
) {
    match phase {
        PhaseView::Terminating { error } => (phase, ActionView::Exit(error)),
        _ => match event {
            EventView::ChannelClosed(detail) => (
                PhaseView::Terminating { error: FatalView::ChannelClosed(detail) },
                ActionView::Exit(FatalView::ChannelClosed(detail)),
            ),
            EventView::ChannelFull(m) => (phase, ActionView::Send(m)),
            EventView::Version(model) => match phase {
                PhaseView::AwaitVersion => (
                    PhaseView::AwaitSerial { model },
                    ActionView::Query(Probe::Serial),
                ),
                _ => (phase, ActionView::Ignore),
            },
            EventView::Serial(serial) => match phase {
                PhaseView::AwaitSerial { model } => (
                    PhaseView::AwaitCpm { model, serial },
                    ActionView::Query(Probe::Cpm),
                ),
                _ => (phase, ActionView::Ignore),
            },
            EventView::Cpm(cpm) => match phase {
                PhaseView::AwaitCpm { model, serial } => dispatch(
                    cycle_requests_of(payloads_of(ReadingView { model, serial, cpm }, at)),
                ),
                _ => (phase, ActionView::Ignore),
            },
            EventView::ReadFailed => match phase {
                PhaseView::AwaitVersion => rest(),
                PhaseView::AwaitSerial { .. } => rest(),
                PhaseView::AwaitCpm { .. } => rest(),
                _ => (phase, ActionView::Ignore),
            },
            EventView::Sent => match phase {
                PhaseView::Sending { pending } => dispatch(pending),
                _ => (phase, ActionView::Ignore),
            },
            EventView::IntervalElapsed => match phase {
                PhaseView::Waiting => (PhaseView::AwaitVersion, ActionView::Query(Probe::Version)),
                _ => (phase, ActionView::Ignore),
            },
        },
    }
}

/// Hands out the first of `pending`, or ends the cycle.
fn dispatch_requests(pending: Vec<IPCMessage>) -> (r: (PollPhase, PollAction))
    ensures
        (r.0@, r.1@) == dispatch(ipc_views(pending@)),
{
    let mut pending = pending;
    if pending.len() == 0 {
        (PollPhase::Waiting, PollAction::Sleep(POLL_TIME))
    } else {
        let ghost before = ipc_views(pending@);
        let first = pending.remove(0);
        assert(ipc_views(pending@) =~= before.drop_first());
        assert(before[0] == first@);
        (PollPhase::Sending { pending }, PollAction::Send(first))
    }
}

impl PollPhase {
    /// The phase in which the loop starts, and its first action: the first
    /// cycle begins at once.
    pub fn start() -> (r: (PollPhase, PollAction))
        ensures
            r.0@ == PhaseView::AwaitVersion,
            r.1@ == ActionView::Query(Probe::Version),
    {
        (PollPhase::AwaitVersion, PollAction::Query(Probe::Version))
    }

    /// The state that this phase belongs to.
    pub fn state(&self) -> (s: PollState)
        ensures
            s == state_of_phase(self@),
    {
        match self {
            PollPhase::Terminating { .. } => PollState::Terminating,
            _ => PollState::Polling,
        }
    }

    /// Applies the poll loop's rule, stamping a count rate with `at`.
    pub fn step_at(self, event: PollEvent, at: Timestamp) -> (r: (PollPhase, PollAction))
        ensures
            (r.0@, r.1@) == step_of(self@, event@, at),
    {
        match self {
            PollPhase::Terminating { error } => {
                let copy = error.duplicate();
                (PollPhase::Terminating { error }, PollAction::Exit(copy))
            },
            phase => match event {
                PollEvent::ChannelClosed(detail) => {
                    let error = FatalError::ChannelClosed(detail);
                    let copy = error.duplicate();
                    (PollPhase::Terminating { error }, PollAction::Exit(copy))
                },
                PollEvent::ChannelFull(m) => (phase, PollAction::Send(m)),
                PollEvent::Version(model) => match phase {
                    PollPhase::AwaitVersion => (
                        PollPhase::AwaitSerial { model },
                        PollAction::Query(Probe::Serial),
                    ),
                    other => (other, PollAction::Ignore),
                },
                PollEvent::Serial(serial) => match phase {
                    PollPhase::AwaitSerial { model } => (
                        PollPhase::AwaitCpm { model, serial },
                        PollAction::Query(Probe::Cpm),
                    ),
                    other => (other, PollAction::Ignore),
                },
                PollEvent::Cpm(cpm) => match phase {
                    PollPhase::AwaitCpm { model, serial } => {
                        let reading = InstrumentReading { model, serial, cpm };
                        let pairs = payloads_at(&reading, at);
                        dispatch_requests(cycle_requests(pairs))
                    },
                    other => (other, PollAction::Ignore),
                },
                PollEvent::ReadFailed => match phase {
                    PollPhase::AwaitVersion => (PollPhase::Waiting, PollAction::Sleep(POLL_TIME)),
                    PollPhase::AwaitSerial { .. } => (
                        PollPhase::Waiting,
                        PollAction::Sleep(POLL_TIME),
                    ),
                    PollPhase::AwaitCpm { .. } => (
                        PollPhase::Waiting,
                        PollAction::Sleep(POLL_TIME),
                    ),
                    other => (other, PollAction::Ignore),
                },
                PollEvent::Sent => match phase {
                    PollPhase::Sending { pending } => dispatch_requests(pending),
                    other => (other, PollAction::Ignore),
                },
                PollEvent::IntervalElapsed => match phase {
                    PollPhase::Waiting => (
                        PollPhase::AwaitVersion,
                        PollAction::Query(Probe::Version),
                    ),
                    other => (other, PollAction::Ignore),
                },
            },
        }
    }

    /// Applies the poll loop's rule, stamping a count rate with the current
    /// time: the outcome is that of `step_of` for some instant.
    pub fn step(self, event: PollEvent) -> (r: (PollPhase, PollAction))
        ensures
            exists|at: Timestamp| (r.0@, r.1@) == step_of(self@, event@, at),
    {
        let at = utc_now();
        let r = self.step_at(event, at);
        assert((r.0@, r.1@) == step_of(self@, event@, at));
        r
    }
}

/// `Terminating` is never left, and from it every event is answered with the
/// request to end the process with the condition that was met.
pub proof fn lemma_terminating_is_final(phase: PhaseView, event: EventView, at: Timestamp)
    requires
        phase is Terminating,
    ensures
        step_of(phase, event, at).0 == phase,
        step_of(phase, event, at).1 == ActionView::Exit(phase->error),
{
}

/// `Terminating` is entered only when the outbound channel is found closed,
/// and a closed channel always leads there.
pub proof fn lemma_only_a_closed_channel_terminates(
    phase: PhaseView,
    event: EventView,
    at: Timestamp,
)
    requires
        !(phase is Terminating),
    ensures
        step_of(phase, event, at).0 is Terminating <==> event is ChannelClosed,
        event matches EventView::ChannelClosed(detail) ==> step_of(phase, event, at).1
            == ActionView::Exit(FatalView::ChannelClosed(detail)),
{
    match event {
        EventView::Cpm(cpm) => {
            if let PhaseView::AwaitCpm { model, serial } = phase {
                let pending = cycle_requests_of(
                    payloads_of(ReadingView { model, serial, cpm }, at),
                );
                assert(!(dispatch(pending).0 is Terminating));
            }
        },
        _ => {},
    }
}

/// A full channel loses nothing: the request that it hands back is the next
/// thing offered to it, and what is still owed stays as it was.
pub proof fn lemma_full_channel_keeps_request(phase: PhaseView, m: IPCView, at: Timestamp)
    requires
        !(phase is Terminating),
    ensures
        step_of(phase, EventView::ChannelFull(m), at) == (phase, ActionView::Send(m)),
{
}

/// A request leaves the owed ones only by being handed to the channel: each
/// step that answers `Sent` hands out the first owed request and keeps the rest
/// in order.
pub proof fn lemma_requests_leave_in_order(pending: Seq<IPCView>, at: Timestamp)
    requires
        pending.len() > 0,
    ensures
        step_of(PhaseView::Sending { pending }, EventView::Sent, at) == (
            PhaseView::Sending { pending: pending.drop_first() },
            ActionView::Send(pending[0]),
        ),
{
}

/// One cycle with a count rate above zero: the count rate's arrival hands out
/// the discovery request, the first `Sent` hands out the state request, and
/// the second `Sent` ends the cycle. So the discovery request is enqueued
/// strictly before the state request of the same reading.
pub proof fn lemma_discovery_is_enqueued_first(r: ReadingView, at: Timestamp, later: Timestamp)
    requires
        r.cpm > 0,
    ensures
        ({
            let first = step_of(
                PhaseView::AwaitCpm { model: r.model, serial: r.serial },
                EventView::Cpm(r.cpm),
                at,
            );
            let second = step_of(first.0, EventView::Sent, later);
            let third = step_of(second.0, EventView::Sent, later);
            &&& first.1 == ActionView::Send(discovery_request(compound_of(r, at)))
            &&& second.1 == ActionView::Send(state_request(compound_of(r, at)))
            &&& third == rest()
        }),
{
    let pairs = payloads_of(r, at);
    let pending = cycle_requests_of(pairs);
    assert(pending.len() == 2);
    assert(pending[0] == discovery_request(pairs[0]));
    assert(pending[1] == state_request(pairs[0]));
    assert(pending.drop_first().len() == 1);
    assert(pending.drop_first()[0] == pending[1]);
    assert(pending.drop_first().drop_first().len() == 0);
}

/// A cycle in which the instrument fails to answer, or reports a count rate of
/// zero, hands nothing to the channel: it goes straight to waiting.
pub proof fn lemma_skipped_cycle_sends_nothing(phase: PhaseView, at: Timestamp)
    ensures
        (phase is AwaitVersion || phase is AwaitSerial || phase is AwaitCpm) ==> step_of(
            phase,
            EventView::ReadFailed,
            at,
        ) == rest(),
        phase is AwaitCpm ==> step_of(phase, EventView::Cpm(0), at) == rest(),
{
    if let PhaseView::AwaitCpm { model, serial } = phase {
        let pairs = payloads_of(ReadingView { model, serial, cpm: 0 }, at);
        assert(cycle_requests_of(pairs).len() == 0);
    }
}

} // verus!
