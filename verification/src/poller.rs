//! The status loop: the background activity of a streaming session.
//!
//! The loop keeps the link to the device alive and refreshes the session's
//! playback status. It runs on a thread of its own, which owns the device
//! connection. [`StatusLoop`] holds what the loop has to remember and decides,
//! event by event, what the thread does next: the thread performs the action
//! it is handed and reports the outcome as the next event.
//!
//! One round of the loop polls the shutdown signal, receives one message,
//! answers it if it is a heartbeat ping, reads the time since the last status
//! fetch, and fetches and publishes the status if the interval has passed.

use vstd::prelude::*;
use crate::status::{status_of_entries, MediaStatus, StatusEntry};

verus! {

/// The delay before the first status fetch of a session, in milliseconds:
/// right after a load the receiver has no playable session yet.
pub const FIRST_STATUS_DELAY_MS: u64 = 5000;

/// The time between later status fetches, in milliseconds.
pub const STATUS_INTERVAL_MS: u64 = 500;

/// What a non-blocking look at the shutdown signal found.
#[derive(Clone, Copy, Debug, PartialEq, Eq, Structural)]
pub enum ShutdownPoll {
    /// The session asked the loop to end.
    Signalled,
    /// The session dropped its end of the signal.
    SenderDropped,
    /// Nothing was sent.
    Empty,
}

/// The kind of a message received from the device.
#[derive(Clone, Copy, Debug, PartialEq, Eq, Structural)]
pub enum MessageKind {
    HeartbeatPing,
    HeartbeatPong,
    HeartbeatOther,
    Connection,
    Media,
    Receiver,
    /// A message that no channel could parse.
    Raw,
}

/// What the loop waits for.
#[derive(Clone, Copy, Debug, PartialEq, Eq, Structural)]
pub enum LoopPhase {
    /// The result of polling the shutdown signal.
    PollingShutdown,
    /// The next message of the device.
    Receiving,
    /// The outcome of sending a pong.
    Answering,
    /// The time since the last status fetch.
    ReadingClock,
    /// The media status asked of the device.
    FetchingStatus,
    /// Nothing: the loop has ended.
    Exited,
}

/// What happened since the last action.
#[derive(Debug, PartialEq, Eq)]
pub enum LoopEvent {
    /// The shutdown signal was polled.
    Shutdown(ShutdownPoll),
    /// A message arrived.
    Message(MessageKind),
    /// The blocking receive failed.
    ReceiveFailed,
    /// The pong went out.
    PongSent,
    /// The pong could not be sent.
    PongFailed,
    /// So many milliseconds have passed since the last status fetch.
    Clock(u64),
    /// The device answered a status request with these media sessions.
    StatusFetched(Vec<StatusEntry>),
    /// The status request failed.
    StatusFailed,
}

/// The mathematical content of a [`LoopEvent`].
pub enum LoopEventView {
    Shutdown(ShutdownPoll),
    Message(MessageKind),
    ReceiveFailed,
    PongSent,
    PongFailed,
    Clock(u64),
    StatusFetched(Seq<StatusEntry>),
    StatusFailed,
}

impl View for LoopEvent {
    type V = LoopEventView;

    open spec fn view(&self) -> LoopEventView {
        match self {
            LoopEvent::Shutdown(poll) => LoopEventView::Shutdown(*poll),
            LoopEvent::Message(kind) => LoopEventView::Message(*kind),
            LoopEvent::ReceiveFailed => LoopEventView::ReceiveFailed,
            LoopEvent::PongSent => LoopEventView::PongSent,
            LoopEvent::PongFailed => LoopEventView::PongFailed,
            LoopEvent::Clock(elapsed_ms) => LoopEventView::Clock(*elapsed_ms),
            LoopEvent::StatusFetched(entries) => LoopEventView::StatusFetched(entries@),
            LoopEvent::StatusFailed => LoopEventView::StatusFailed,
        }
    }
}

/// What the thread does next.
#[derive(Clone, Copy, Debug, PartialEq, Eq)]
pub enum LoopAction {
    /// Look at the shutdown signal without blocking.
    PollShutdown,
    /// Block until the device sends a message.
    Receive,
    /// Answer the device's ping with a pong on the same connection.
    SendPong,
    /// Read the time since the last status fetch.
    ReadClock,
    /// Ask the device for its media status.
    FetchStatus,
    /// Overwrite the session's status with this one, restart the clock, then
    /// look at the shutdown signal.
    Publish(MediaStatus),
    /// End the thread. `disconnected` says that the link to the device was
    /// lost, so that the status the session holds is stale.
    Exit { disconnected: bool },
}

/// The memory of a status loop.
#[derive(Clone, Copy, Debug, PartialEq, Eq)]
pub struct StatusLoop {
    /// What the loop waits for.
    pub phase: LoopPhase,
    /// The interval that the next status fetch waits for, in milliseconds.
    pub interval_ms: u64,
    /// Whether the link to the device was lost.
    pub disconnected: bool,
}

/// A loop that has just been started: it polls the shutdown signal first and
/// waits the long delay before its first status fetch.
pub open spec fn fresh_loop() -> StatusLoop {
    StatusLoop {
        phase: LoopPhase::PollingShutdown,
        interval_ms: FIRST_STATUS_DELAY_MS,
        disconnected: false,
    }
}

/// The action that a loop in phase `phase` has asked for and waits on.
pub open spec fn awaited_action(s: StatusLoop) -> LoopAction {
    match s.phase {
        LoopPhase::PollingShutdown => LoopAction::PollShutdown,
        LoopPhase::Receiving => LoopAction::Receive,
        LoopPhase::Answering => LoopAction::SendPong,
        LoopPhase::ReadingClock => LoopAction::ReadClock,
        LoopPhase::FetchingStatus => LoopAction::FetchStatus,
        LoopPhase::Exited => LoopAction::Exit { disconnected: s.disconnected },
    }
}

/// The loop after the link to the device failed: it ends, and says so.
pub open spec fn link_lost(s: StatusLoop) -> (StatusLoop, LoopAction) {
    (
        StatusLoop { phase: LoopPhase::Exited, disconnected: true, ..s },
        LoopAction::Exit { disconnected: true },
    )
}

/// The loop's transition: the state after `event`, and the action to perform.
///
/// - Polling the shutdown signal is the one point at which the session can end
///   the loop: a signal, or a dropped sender, ends it; otherwise it receives.
/// - A heartbeat ping is answered with a pong. Every other message changes
///   nothing; the loop goes on to read the clock.
/// - A failed receive, or a pong that cannot be sent, means that the link is
///   lost: the loop ends with `disconnected` set.
/// - Once the time since the last fetch has reached the interval, the status
///   is fetched, and every later fetch waits the short interval.
/// - A fetched status is published: the first media session, or `Inactive`
///   where there is none. A failed fetch changes nothing and leaves the clock
///   running, so that the next round tries again.
/// - An event that the phase does not wait for changes nothing, and the
///   awaited action is asked for again.
pub open spec fn loop_step(s: StatusLoop, event: LoopEventView) -> (StatusLoop, LoopAction) {
    match (s.phase, event) {
        (LoopPhase::PollingShutdown, LoopEventView::Shutdown(ShutdownPoll::Empty)) => (
            StatusLoop { phase: LoopPhase::Receiving, ..s },
            LoopAction::Receive,
        ),
        (LoopPhase::PollingShutdown, LoopEventView::Shutdown(_)) => (
            StatusLoop { phase: LoopPhase::Exited, ..s },
            LoopAction::Exit { disconnected: s.disconnected },
        ),
        (LoopPhase::Receiving, LoopEventView::Message(MessageKind::HeartbeatPing)) => (
            StatusLoop { phase: LoopPhase::Answering, ..s },
            LoopAction::SendPong,
        ),
        (LoopPhase::Receiving, LoopEventView::Message(_)) => (
            StatusLoop { phase: LoopPhase::ReadingClock, ..s },
            LoopAction::ReadClock,
        ),
        (LoopPhase::Receiving, LoopEventView::ReceiveFailed) => link_lost(s),
        (LoopPhase::Answering, LoopEventView::PongSent) => (
            StatusLoop { phase: LoopPhase::ReadingClock, ..s },
            LoopAction::ReadClock,
        ),
        (LoopPhase::Answering, LoopEventView::PongFailed) => link_lost(s),
        (LoopPhase::ReadingClock, LoopEventView::Clock(elapsed_ms)) => if elapsed_ms
            >= s.interval_ms {
            (
                StatusLoop {
                    phase: LoopPhase::FetchingStatus,
                    interval_ms: STATUS_INTERVAL_MS,
                    ..s
                },
                LoopAction::FetchStatus,
            )
        } else {
            (StatusLoop { phase: LoopPhase::PollingShutdown, ..s }, LoopAction::PollShutdown)
        },
        (LoopPhase::FetchingStatus, LoopEventView::StatusFetched(entries)) => (
            StatusLoop { phase: LoopPhase::PollingShutdown, ..s },
            LoopAction::Publish(status_of_entries(entries)),
        ),
        (LoopPhase::FetchingStatus, LoopEventView::StatusFailed) => (
            StatusLoop { phase: LoopPhase::PollingShutdown, ..s },
            LoopAction::PollShutdown,
        ),
        _ => (s, awaited_action(s)),
    }
}

impl StatusLoop {
    /// A loop for a session that has just started to stream. Its first action
    /// is [`LoopAction::PollShutdown`].
    pub fn new() -> (s: StatusLoop)
        ensures
            s == fresh_loop(),
    {
        StatusLoop {
            phase: LoopPhase::PollingShutdown,
            interval_ms: FIRST_STATUS_DELAY_MS,
            disconnected: false,
        }
    }

    /// The action that the loop has asked for and waits on.
    pub fn awaited(&self) -> (action: LoopAction)
        ensures
            action == awaited_action(*self),
    {
        match self.phase {
            LoopPhase::PollingShutdown => LoopAction::PollShutdown,
            LoopPhase::Receiving => LoopAction::Receive,
            LoopPhase::Answering => LoopAction::SendPong,
            LoopPhase::ReadingClock => LoopAction::ReadClock,
            LoopPhase::FetchingStatus => LoopAction::FetchStatus,
            LoopPhase::Exited => LoopAction::Exit { disconnected: self.disconnected },
        }
    }

    /// Whether the loop has ended.
    pub fn has_exited(&self) -> (b: bool)
        ensures
            b == (self.phase == LoopPhase::Exited),
    {
        self.phase == LoopPhase::Exited
    }

    /// Takes in what happened and says what to do next.
    pub fn step(&mut self, event: &LoopEvent) -> (action: LoopAction)
        ensures
            (*final(self), action) == loop_step(*old(self), event@),
    {
        match (self.phase, event) {
            (LoopPhase::PollingShutdown, LoopEvent::Shutdown(poll)) => {
                match poll {
                    ShutdownPoll::Empty => {
                        self.phase = LoopPhase::Receiving;
                        LoopAction::Receive
                    },
                    _ => {
                        self.phase = LoopPhase::Exited;
                        LoopAction::Exit { disconnected: self.disconnected }
                    },
                }
            },
            (LoopPhase::Receiving, LoopEvent::Message(kind)) => {
                match kind {
                    MessageKind::HeartbeatPing => {
                        self.phase = LoopPhase::Answering;
                        LoopAction::SendPong
                    },
                    _ => {
                        self.phase = LoopPhase::ReadingClock;
                        LoopAction::ReadClock
                    },
                }
            },
            (LoopPhase::Receiving, LoopEvent::ReceiveFailed) => self.lose_link(),
            (LoopPhase::Answering, LoopEvent::PongSent) => {
                self.phase = LoopPhase::ReadingClock;
                LoopAction::ReadClock
            },
            (LoopPhase::Answering, LoopEvent::PongFailed) => self.lose_link(),
            (LoopPhase::ReadingClock, LoopEvent::Clock(elapsed_ms)) => {
                if *elapsed_ms >= self.interval_ms {
                    self.phase = LoopPhase::FetchingStatus;
                    self.interval_ms = STATUS_INTERVAL_MS;
                    LoopAction::FetchStatus
                } else {
                    self.phase = LoopPhase::PollingShutdown;
                    LoopAction::PollShutdown
                }
            },
            (LoopPhase::FetchingStatus, LoopEvent::StatusFetched(entries)) => {
                self.phase = LoopPhase::PollingShutdown;
                LoopAction::Publish(MediaStatus::from_entries(entries))
            },
            (LoopPhase::FetchingStatus, LoopEvent::StatusFailed) => {
                self.phase = LoopPhase::PollingShutdown;
                LoopAction::PollShutdown
            },
            _ => self.awaited(),
        }
    }

    /// Ends the loop because the link to the device is lost.
    fn lose_link(&mut self) -> (action: LoopAction)
        ensures
            (*final(self), action) == link_lost(*old(self)),
    {
        self.phase = LoopPhase::Exited;
        self.disconnected = true;
        LoopAction::Exit { disconnected: true }
    }
}

/// The loop ends only where the shutdown signal was found set or its sender
/// gone, or where the link to the device failed. A loop that has ended stays
/// ended.
pub proof fn loop_ends_only_on_signal_or_lost_link(s: StatusLoop, event: LoopEventView)
    ensures
        loop_step(s, event).1 is Exit ==> s.phase == LoopPhase::Exited || (s.phase
            == LoopPhase::PollingShutdown && event is Shutdown && event->Shutdown_0
            != ShutdownPoll::Empty) || (s.phase == LoopPhase::Receiving && event is ReceiveFailed)
            || (s.phase == LoopPhase::Answering && event is PongFailed),
        s.phase == LoopPhase::Exited ==> loop_step(s, event).0 == s,
        loop_step(s, event).0.phase == LoopPhase::Exited <==> loop_step(s, event).1 is Exit,
        loop_step(s, event).0.disconnected == (s.disconnected || (s.phase == LoopPhase::Receiving
            && event is ReceiveFailed) || (s.phase == LoopPhase::Answering && event
            is PongFailed)),
{
}

/// A heartbeat ping is answered with a pong before anything else is done,
/// and no other message is answered.
pub proof fn ping_is_answered(s: StatusLoop, kind: MessageKind)
    requires
        s.phase == LoopPhase::Receiving,
    ensures
        loop_step(s, LoopEventView::Message(kind)).1 == if kind == MessageKind::HeartbeatPing {
            LoopAction::SendPong
        } else {
            LoopAction::ReadClock
        },
        loop_step(s, LoopEventView::Message(kind)).0.interval_ms == s.interval_ms,
{
}

/// The first status fetch of a loop waits for the long delay, every later
/// one for the short interval; a fetch that fails does not end the loop.
pub proof fn fetches_follow_the_intervals(s: StatusLoop, elapsed_ms: u64)
    requires
        s.phase == LoopPhase::ReadingClock,
    ensures
        fresh_loop().interval_ms == FIRST_STATUS_DELAY_MS,
        loop_step(s, LoopEventView::Clock(elapsed_ms)).1 == if elapsed_ms >= s.interval_ms {
            LoopAction::FetchStatus
        } else {
            LoopAction::PollShutdown
        },
        elapsed_ms >= s.interval_ms ==> loop_step(s, LoopEventView::Clock(elapsed_ms)).0.interval_ms
            == STATUS_INTERVAL_MS,
        elapsed_ms < s.interval_ms ==> loop_step(s, LoopEventView::Clock(elapsed_ms)).0.interval_ms
            == s.interval_ms,
        ({
            let fetching = loop_step(s, LoopEventView::Clock(s.interval_ms)).0;
            loop_step(fetching, LoopEventView::StatusFailed) == (
                StatusLoop { phase: LoopPhase::PollingShutdown, ..fetching },
                LoopAction::PollShutdown,
            )
        }),
{
}

/// A status is published only in answer to a status fetch, and it is the
/// first media session that the device reported, or `Inactive`.
pub proof fn publication_follows_a_fetch(s: StatusLoop, event: LoopEventView)
    ensures
        loop_step(s, event).1 is Publish ==> s.phase == LoopPhase::FetchingStatus && event
            is StatusFetched && loop_step(s, event).1 == LoopAction::Publish(
            status_of_entries(event->StatusFetched_0),
        ),
{
}

} // verus!
