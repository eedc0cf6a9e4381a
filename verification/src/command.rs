//! Playback commands: resume, pause, stop and seek.
//!
//! A command never uses the connection of the status loop. It opens a
//! connection of its own, asks the device which application runs and which
//! media session that application plays, addresses the command to that
//! session, and closes the connection again, whatever happened in between.
//! Where nothing plays, no command goes out.
//!
//! [`Dispatch`] is the run of one command. Each step returns a
//! [`DispatchAction`]; the caller performs it and reports the outcome to
//! [`Dispatch::step`] as a [`DispatchEvent`].

use vstd::prelude::*;
use vstd::string::StringExecFns;
use crate::address::DeviceAddr;
use crate::cast::{control_link, LinkTarget, LinkTargetView, CAST_PORT, DESTINATION_ID};
use crate::error::{error_of_failure, CastError, CastErrorView, DeviceFailure, DeviceFailureView};
use crate::status::StatusEntry;

verus! {

/// What a playback command asks of the player.
#[derive(Clone, Copy, Debug, PartialEq, Eq)]
pub enum PlayerSignal {
    Play,
    Pause,
    Stop,
    /// Move to this position, in milliseconds from the start, and go on
    /// playing or pausing as before.
    Seek(u64),
}

/// An application that runs on the device.
#[derive(Debug, PartialEq, Eq)]
pub struct RunningApp {
    /// The name of the pipe to the application.
    pub transport_id: String,
}

/// The pipes of a list of applications.
pub open spec fn transports_of(apps: Seq<RunningApp>) -> Seq<Seq<char>> {
    apps.map_values(|app: RunningApp| app.transport_id@)
}

/// Where the run of a command stands.
#[derive(Clone, Copy, Debug, PartialEq, Eq, Structural)]
pub enum DispatchPhase {
    /// The connection is being opened.
    Connecting,
    /// The device was asked which applications run.
    ReadingReceiver,
    /// A channel to the first application is being opened.
    JoiningApp,
    /// The application was asked for its media sessions.
    ReadingMedia,
    /// The command is on its way.
    Sending,
    /// The connection is being closed.
    Closing,
    /// The run is over.
    Finished,
}

/// What the caller reports to the run of a command.
#[derive(Debug, PartialEq, Eq)]
pub enum DispatchEvent {
    /// The connection is open and the device was greeted.
    Connected,
    /// The device runs these applications.
    ReceiverStatus(Vec<RunningApp>),
    /// The channel to the application is open.
    Joined,
    /// The application plays these media sessions.
    MediaStatus(Vec<StatusEntry>),
    /// The device took the command.
    Sent,
    /// The connection is closed.
    Disconnected,
    /// The exchange that was asked for failed.
    Failed(DeviceFailure),
}

/// The mathematical content of a [`DispatchEvent`].
pub enum DispatchEventView {
    Connected,
    ReceiverStatus(Seq<Seq<char>>),
    Joined,
    MediaStatus(Seq<StatusEntry>),
    Sent,
    Disconnected,
    Failed(DeviceFailureView),
}

impl View for DispatchEvent {
    type V = DispatchEventView;

    open spec fn view(&self) -> DispatchEventView {
        match self {
            DispatchEvent::Connected => DispatchEventView::Connected,
            DispatchEvent::ReceiverStatus(apps) => DispatchEventView::ReceiverStatus(
                transports_of(apps@),
            ),
            DispatchEvent::Joined => DispatchEventView::Joined,
            DispatchEvent::MediaStatus(entries) => DispatchEventView::MediaStatus(entries@),
            DispatchEvent::Sent => DispatchEventView::Sent,
            DispatchEvent::Disconnected => DispatchEventView::Disconnected,
            DispatchEvent::Failed(failure) => DispatchEventView::Failed(failure@),
        }
    }
}

/// A command as it goes over the wire: what to do, and to which media session
/// of which application.
#[derive(Debug, PartialEq, Eq)]
pub struct WireCommand {
    pub signal: PlayerSignal,
    pub transport_id: String,
    pub media_session_id: i32,
}

/// The mathematical content of a [`WireCommand`].
pub struct WireCommandView {
    pub signal: PlayerSignal,
    pub transport_id: Seq<char>,
    pub media_session_id: i32,
}

impl View for WireCommand {
    type V = WireCommandView;

    open spec fn view(&self) -> WireCommandView {
        WireCommandView {
            signal: self.signal,
            transport_id: self.transport_id@,
            media_session_id: self.media_session_id,
        }
    }
}

/// How a run ended: with the command sent, or with the reason why not.
pub type Outcome = Result<(), CastError>;

/// The mathematical content of an [`Outcome`].
pub type OutcomeView = Result<(), CastErrorView>;

/// The content of an outcome.
pub open spec fn outcome_view(outcome: Outcome) -> OutcomeView {
    match outcome {
        Ok(_) => Ok(()),
        Err(error) => Err(error@),
    }
}

/// A copy of an outcome.
pub fn copy_outcome(outcome: &Outcome) -> (copy: Outcome)
    ensures
        copy == *outcome,
{
    match outcome {
        Ok(unit) => Ok(*unit),
        Err(error) => Err(error.clone()),
    }
}

/// What the caller does next for the run of a command.
#[derive(Debug, PartialEq, Eq)]
pub enum DispatchAction {
    /// Open a connection to the device and greet its control channel. Report
    /// `Connected` or `Failed`.
    Connect(LinkTarget),
    /// Ask the device which applications run. Report `ReceiverStatus` or
    /// `Failed`.
    GetReceiverStatus,
    /// Open a channel to this application. Report `Joined` or `Failed`.
    Join { transport_id: String },
    /// Ask this application for its media sessions. Report `MediaStatus` or
    /// `Failed`.
    GetMediaStatus { transport_id: String },
    /// Send the command. Report `Sent` or `Failed`.
    Send(WireCommand),
    /// Take leave of the control channel and close the connection. Report
    /// `Disconnected` or `Failed`.
    Disconnect { destination: String },
    /// Return this to whoever asked for the command.
    Finish(Outcome),
}

/// The mathematical content of a [`DispatchAction`].
pub enum DispatchActionView {
    Connect(LinkTargetView),
    GetReceiverStatus,
    Join { transport_id: Seq<char> },
    GetMediaStatus { transport_id: Seq<char> },
    Send(WireCommandView),
    Disconnect { destination: Seq<char> },
    Finish(OutcomeView),
}

impl View for DispatchAction {
    type V = DispatchActionView;

    open spec fn view(&self) -> DispatchActionView {
        match self {
            DispatchAction::Connect(target) => DispatchActionView::Connect(target@),
            DispatchAction::GetReceiverStatus => DispatchActionView::GetReceiverStatus,
            DispatchAction::Join { transport_id } => DispatchActionView::Join {
                transport_id: transport_id@,
            },
            DispatchAction::GetMediaStatus { transport_id } => {
                DispatchActionView::GetMediaStatus { transport_id: transport_id@ }
            },
            DispatchAction::Send(command) => DispatchActionView::Send(command@),
            DispatchAction::Disconnect { destination } => DispatchActionView::Disconnect {
                destination: destination@,
            },
            DispatchAction::Finish(outcome) => DispatchActionView::Finish(outcome_view(*outcome)),
        }
    }
}

/// The run of one playback command.
#[derive(Debug, PartialEq, Eq)]
pub struct Dispatch {
    signal: PlayerSignal,
    host: DeviceAddr,
    phase: DispatchPhase,
    transport_id: String,
    outcome: Outcome,
}

/// The mathematical content of a [`Dispatch`].
pub struct DispatchView {
    /// What the command asks of the player.
    pub signal: PlayerSignal,
    /// The device that the command goes to.
    pub host: DeviceAddr,
    /// Where the run stands.
    pub phase: DispatchPhase,
    /// The application that the command goes to, once it is known.
    pub transport_id: Seq<char>,
    /// How the run ends, once that is settled.
    pub outcome: OutcomeView,
}

impl View for Dispatch {
    type V = DispatchView;

    closed spec fn view(&self) -> DispatchView {
        DispatchView {
            signal: self.signal,
            host: self.host,
            phase: self.phase,
            transport_id: self.transport_id@,
            outcome: outcome_view(self.outcome),
        }
    }
}

/// A run that has not done anything yet.
pub open spec fn fresh_dispatch(signal: PlayerSignal, host: DeviceAddr) -> DispatchView {
    DispatchView {
        signal,
        host,
        phase: DispatchPhase::Connecting,
        transport_id: Seq::empty(),
        outcome: Ok(()),
    }
}

/// What is reported of an event that the run did not wait for.
pub open spec fn unexpected_event() -> CastErrorView {
    CastErrorView::ProtocolError("Unexpected answer from the device."@)
}

/// The error that an event brings to a run that waited for something else:
/// the failure it reports, or a protocol error.
pub open spec fn error_of_event(event: DispatchEventView) -> CastErrorView {
    match event {
        DispatchEventView::Failed(failure) => error_of_failure(failure),
        _ => unexpected_event(),
    }
}

/// A run on an open connection whose result is settled: it closes the
/// connection and keeps the result for the end.
pub open spec fn wind_down(s: DispatchView, outcome: OutcomeView) -> (
    DispatchView,
    DispatchActionView,
) {
    (
        DispatchView { phase: DispatchPhase::Closing, outcome, ..s },
        DispatchActionView::Disconnect { destination: DESTINATION_ID@ },
    )
}

/// A run that is over: whatever comes, it returns its result.
pub open spec fn finished(s: DispatchView, outcome: OutcomeView) -> (
    DispatchView,
    DispatchActionView,
) {
    (
        DispatchView { phase: DispatchPhase::Finished, outcome, ..s },
        DispatchActionView::Finish(outcome),
    )
}

/// What an event does to the run of a command.
///
/// - The run connects, reads which applications run, opens a channel to the
///   first of them, reads its media sessions and addresses the command to
///   the first of those.
/// - Where no application runs, or the application plays nothing, the result
///   is `NoActiveMedia` and no command is sent.
/// - A failure, or an event that the phase does not wait for, settles the
///   result as that error.
/// - Once the connection is open, every run closes it before it ends, and
///   ends with the result that was settled before, however the closing went.
pub open spec fn dispatch_step(s: DispatchView, event: DispatchEventView) -> (
    DispatchView,
    DispatchActionView,
) {
    match (s.phase, event) {
        (DispatchPhase::Connecting, DispatchEventView::Connected) => (
            DispatchView { phase: DispatchPhase::ReadingReceiver, ..s },
            DispatchActionView::GetReceiverStatus,
        ),
        (DispatchPhase::Connecting, _) => finished(s, Err(error_of_event(event))),
        (DispatchPhase::ReadingReceiver, DispatchEventView::ReceiverStatus(transports)) => {
            if transports.len() > 0 {
                (
                    DispatchView {
                        phase: DispatchPhase::JoiningApp,
                        transport_id: transports[0],
                        ..s
                    },
                    DispatchActionView::Join { transport_id: transports[0] },
                )
            } else {
                wind_down(s, Err(CastErrorView::NoActiveMedia))
            }
        },
        (DispatchPhase::JoiningApp, DispatchEventView::Joined) => (
            DispatchView { phase: DispatchPhase::ReadingMedia, ..s },
            DispatchActionView::GetMediaStatus { transport_id: s.transport_id },
        ),
        (DispatchPhase::ReadingMedia, DispatchEventView::MediaStatus(entries)) => {
            if entries.len() > 0 {
                (
                    DispatchView { phase: DispatchPhase::Sending, ..s },
                    DispatchActionView::Send(
                        WireCommandView {
                            signal: s.signal,
                            transport_id: s.transport_id,
                            media_session_id: entries[0].media_session_id,
                        },
                    ),
                )
            } else {
                wind_down(s, Err(CastErrorView::NoActiveMedia))
            }
        },
        (DispatchPhase::Sending, DispatchEventView::Sent) => wind_down(s, Ok(())),
        (DispatchPhase::Closing, _) => finished(s, s.outcome),
        (DispatchPhase::Finished, _) => finished(s, s.outcome),
        _ => wind_down(s, Err(error_of_event(event))),
    }
}

/// The action that starts a run.
pub open spec fn first_action(s: DispatchView) -> DispatchActionView {
    DispatchActionView::Connect(control_link(s.host))
}

impl Dispatch {
    /// The run of `signal` against the device at `host`. Its first action is
    /// that of [`Dispatch::start`].
    pub fn new(signal: PlayerSignal, host: DeviceAddr) -> (run: Dispatch)
        ensures
            run@ == fresh_dispatch(signal, host),
    {
        Dispatch {
            signal,
            host,
            phase: DispatchPhase::Connecting,
            transport_id: String::new(),
            outcome: Ok(()),
        }
    }

    /// Where the run stands.
    pub fn phase(&self) -> (phase: DispatchPhase)
        ensures
            phase == self@.phase,
    {
        self.phase
    }

    /// The action that starts the run: to connect to the device.
    pub fn start(&self) -> (action: DispatchAction)
        ensures
            action@ == first_action(self@),
    {
        DispatchAction::Connect(
            LinkTarget {
                host: self.host.to_text(),
                port: CAST_PORT,
                destination: String::from_str(DESTINATION_ID),
            },
        )
    }

    /// Takes in what happened and says what to do next.
    pub fn step(&mut self, event: DispatchEvent) -> (action: DispatchAction)
        ensures
            (final(self)@, action@) == dispatch_step(old(self)@, event@),
    {
        match self.phase {
            DispatchPhase::Connecting => {
                match event {
                    DispatchEvent::Connected => {
                        self.phase = DispatchPhase::ReadingReceiver;
                        DispatchAction::GetReceiverStatus
                    },
                    other => {
                        let error = Self::error_from(other);
                        self.finish(Err(error))
                    },
                }
            },
            DispatchPhase::ReadingReceiver => {
                match event {
                    DispatchEvent::ReceiverStatus(apps) => {
                        if apps.len() > 0 {
                            let transport_id = apps[0].transport_id.clone();
                            self.phase = DispatchPhase::JoiningApp;
                            self.transport_id = transport_id.clone();
                            DispatchAction::Join { transport_id }
                        } else {
                            self.settle(Err(CastError::NoActiveMedia))
                        }
                    },
                    other => {
                        let error = Self::error_from(other);
                        self.settle(Err(error))
                    },
                }
            },
            DispatchPhase::JoiningApp => {
                match event {
                    DispatchEvent::Joined => {
                        self.phase = DispatchPhase::ReadingMedia;
                        DispatchAction::GetMediaStatus { transport_id: self.transport_id.clone() }
                    },
                    other => {
                        let error = Self::error_from(other);
                        self.settle(Err(error))
                    },
                }
            },
            DispatchPhase::ReadingMedia => {
                match event {
                    DispatchEvent::MediaStatus(entries) => {
                        if entries.len() > 0 {
                            self.phase = DispatchPhase::Sending;
                            DispatchAction::Send(
                                WireCommand {
                                    signal: self.signal,
                                    transport_id: self.transport_id.clone(),
                                    media_session_id: entries[0].media_session_id,
                                },
                            )
                        } else {
                            self.settle(Err(CastError::NoActiveMedia))
                        }
                    },
                    other => {
                        let error = Self::error_from(other);
                        self.settle(Err(error))
                    },
                }
            },
            DispatchPhase::Sending => {
                match event {
                    DispatchEvent::Sent => self.settle(Ok(())),
                    other => {
                        let error = Self::error_from(other);
                        self.settle(Err(error))
                    },
                }
            },
            DispatchPhase::Closing => {
                let outcome = copy_outcome(&self.outcome);
                self.finish(outcome)
            },
            DispatchPhase::Finished => {
                let outcome = copy_outcome(&self.outcome);
                self.finish(outcome)
            },
        }
    }

    /// The error that an event brings to a run that waited for something
    /// else.
    fn error_from(event: DispatchEvent) -> (error: CastError)
        ensures
            error@ == error_of_event(event@),
    {
        match event {
            DispatchEvent::Failed(failure) => CastError::from_failure(&failure),
            _ => CastError::ProtocolError(String::from_str("Unexpected answer from the device.")),
        }
    }

    /// Settles the result and closes the connection.
    fn settle(&mut self, outcome: Outcome) -> (action: DispatchAction)
        ensures
            (final(self)@, action@) == wind_down(old(self)@, outcome_view(outcome)),
    {
        self.phase = DispatchPhase::Closing;
        self.outcome = outcome;
        DispatchAction::Disconnect { destination: String::from_str(DESTINATION_ID) }
    }

    /// Ends the run with `outcome`.
    fn finish(&mut self, outcome: Outcome) -> (action: DispatchAction)
        ensures
            (final(self)@, action@) == finished(old(self)@, outcome_view(outcome)),
    {
        self.phase = DispatchPhase::Finished;
        let kept = copy_outcome(&outcome);
        self.outcome = kept;
        DispatchAction::Finish(outcome)
    }
}

/// The run after a sequence of events, and the actions it asked for on the
/// way, one for each event.
pub open spec fn dispatch_run(s: DispatchView, events: Seq<DispatchEventView>) -> (
    DispatchView,
    Seq<DispatchActionView>,
)
    decreases events.len(),
{
    if events.len() == 0 {
        (s, Seq::empty())
    } else {
        let before = dispatch_run(s, events.drop_last());
        let last = dispatch_step(before.0, events.last());
        (last.0, before.1.push(last.1))
    }
}

/// Whether an event reports at least one media session.
pub open spec fn reports_media(event: DispatchEventView) -> bool {
    event matches DispatchEventView::MediaStatus(entries) && entries.len() > 0
}

/// A command goes out only in answer to a report of at least one media
/// session, and it is addressed to the first session of that report.
pub proof fn command_needs_media(s: DispatchView, event: DispatchEventView)
    ensures
        dispatch_step(s, event).1 is Send ==> s.phase == DispatchPhase::ReadingMedia
            && reports_media(event) && dispatch_step(s, event).1 == DispatchActionView::Send(
            WireCommandView {
                signal: s.signal,
                transport_id: s.transport_id,
                media_session_id: event->MediaStatus_0[0].media_session_id,
            },
        ),
{
}

/// Whatever the device answers and in whatever order: as long as it reports
/// no media session, the run of a command never sends a command.
pub proof fn no_media_no_command(s: DispatchView, events: Seq<DispatchEventView>)
    requires
        forall|i: int| 0 <= i < events.len() ==> !reports_media(#[trigger] events[i]),
    ensures
        dispatch_run(s, events).1.len() == events.len(),
        forall|j: int|
            0 <= j < events.len() ==> !(#[trigger] dispatch_run(s, events).1[j] is Send),
    decreases events.len(),
{
    if events.len() > 0 {
        let before = events.drop_last();
        no_media_no_command(s, before);
        command_needs_media(dispatch_run(s, before).0, events.last());
    }
}

/// Every playback command fails with `NoActiveMedia` on a device whose
/// application plays nothing: the run connects, finds the application, finds
/// no media session, closes the connection without having sent a command,
/// and returns that error, however the closing went.
pub proof fn command_without_media_fails(
    signal: PlayerSignal,
    host: DeviceAddr,
    transports: Seq<Seq<char>>,
    closing: DispatchEventView,
)
    requires
        transports.len() > 0,
    ensures
        ({
            let s0 = fresh_dispatch(signal, host);
            let (s1, a1) = dispatch_step(s0, DispatchEventView::Connected);
            let (s2, a2) = dispatch_step(s1, DispatchEventView::ReceiverStatus(transports));
            let (s3, a3) = dispatch_step(s2, DispatchEventView::Joined);
            let (s4, a4) = dispatch_step(s3, DispatchEventView::MediaStatus(Seq::empty()));
            let (s5, a5) = dispatch_step(s4, closing);
            &&& a1 == DispatchActionView::GetReceiverStatus
            &&& a2 == DispatchActionView::Join { transport_id: transports[0] }
            &&& a3 == DispatchActionView::GetMediaStatus { transport_id: transports[0] }
            &&& a4 == DispatchActionView::Disconnect { destination: DESTINATION_ID@ }
            &&& a5 == DispatchActionView::Finish(Err(CastErrorView::NoActiveMedia))
            &&& s5.phase == DispatchPhase::Finished
        }),
{
}

/// A command fails with `NoActiveMedia` as well where the device runs no
/// application at all, again without a command being sent.
pub proof fn command_without_application_fails(
    signal: PlayerSignal,
    host: DeviceAddr,
    closing: DispatchEventView,
)
    ensures
        ({
            let s0 = fresh_dispatch(signal, host);
            let (s1, a1) = dispatch_step(s0, DispatchEventView::Connected);
            let (s2, a2) = dispatch_step(s1, DispatchEventView::ReceiverStatus(Seq::empty()));
            let (s3, a3) = dispatch_step(s2, closing);
            &&& a1 == DispatchActionView::GetReceiverStatus
            &&& a2 == DispatchActionView::Disconnect { destination: DESTINATION_ID@ }
            &&& a3 == DispatchActionView::Finish(Err(CastErrorView::NoActiveMedia))
        }),
{
}

/// A command reaches a playing device: the run addresses the command to the
/// first media session of the first application, closes the connection and
/// returns success.
pub proof fn command_with_media_is_sent(
    signal: PlayerSignal,
    host: DeviceAddr,
    transports: Seq<Seq<char>>,
    entries: Seq<StatusEntry>,
    closing: DispatchEventView,
)
    requires
        transports.len() > 0,
        entries.len() > 0,
    ensures
        ({
            let s0 = fresh_dispatch(signal, host);
            let (s1, a1) = dispatch_step(s0, DispatchEventView::Connected);
            let (s2, a2) = dispatch_step(s1, DispatchEventView::ReceiverStatus(transports));
            let (s3, a3) = dispatch_step(s2, DispatchEventView::Joined);
            let (s4, a4) = dispatch_step(s3, DispatchEventView::MediaStatus(entries));
            let (s5, a5) = dispatch_step(s4, DispatchEventView::Sent);
            let (s6, a6) = dispatch_step(s5, closing);
            &&& a4 == DispatchActionView::Send(
                WireCommandView {
                    signal,
                    transport_id: transports[0],
                    media_session_id: entries[0].media_session_id,
                },
            )
            &&& a5 == DispatchActionView::Disconnect { destination: DESTINATION_ID@ }
            &&& a6 == DispatchActionView::Finish(Ok(()))
        }),
{
}

/// Once the connection is open a run does not end before it has closed it:
/// the result is returned only by a run that was closing, or that had ended
/// already.
pub proof fn connection_is_closed_before_the_end(s: DispatchView, event: DispatchEventView)
    requires
        s.phase != DispatchPhase::Connecting,
    ensures
        dispatch_step(s, event).1 is Finish ==> s.phase == DispatchPhase::Closing || s.phase
            == DispatchPhase::Finished,
        dispatch_step(s, event).1 is Finish ==> dispatch_step(s, event).1
            == DispatchActionView::Finish(s.outcome),
        s.phase != DispatchPhase::Closing && s.phase != DispatchPhase::Finished ==> dispatch_step(
            s,
            event,
        ).0.phase != DispatchPhase::Finished,
{
}

/// A run yields one action for each event, and the action at `k` is that of
/// the `k`-th event on the run as the events before it left it.
proof fn lemma_dispatch_run_at(s: DispatchView, events: Seq<DispatchEventView>, k: int)
    requires
        0 <= k < events.len(),
    ensures
        dispatch_run(s, events).1.len() == events.len(),
        dispatch_run(s, events).1[k] == dispatch_step(
            dispatch_run(s, events.take(k)).0,
            events[k],
        ).1,
        dispatch_run(s, events.take(k + 1)).0 == dispatch_step(
            dispatch_run(s, events.take(k)).0,
            events[k],
        ).0,
    decreases events.len(),
{
    let before = events.drop_last();
    assert(events.take(k + 1).drop_last() =~= events.take(k));
    if k == events.len() - 1 {
        if before.len() > 0 {
            lemma_dispatch_run_at(s, before, 0);
        } else {
            assert(dispatch_run(s, before).1.len() == 0);
        }
    } else {
        lemma_dispatch_run_at(s, before, k);
        assert(before.take(k) =~= events.take(k));
    }
}

/// After the connection was opened, a run that closes or has ended has asked
/// for the connection to be closed.
proof fn lemma_closing_was_asked(
    signal: PlayerSignal,
    host: DeviceAddr,
    events: Seq<DispatchEventView>,
    j: int,
)
    requires
        0 < j <= events.len(),
        events[0] == DispatchEventView::Connected,
    ensures
        ({
            let reached = dispatch_run(fresh_dispatch(signal, host), events.take(j)).0;
            &&& reached.phase != DispatchPhase::Connecting
            &&& reached.phase == DispatchPhase::Closing || reached.phase
                == DispatchPhase::Finished ==> exists|k: int|
                0 <= k < j && #[trigger] dispatch_run(fresh_dispatch(signal, host), events).1[k]
                    is Disconnect
        }),
    decreases j,
{
    let s0 = fresh_dispatch(signal, host);
    lemma_dispatch_run_at(s0, events, j - 1);
    if j > 1 {
        lemma_closing_was_asked(signal, host, events, j - 1);
    }
}

/// The connection of a command is released on every path: once the
/// connection is open, whatever the device answers and in whatever order, the
/// run returns its result only after it has asked for the connection to be
/// closed.
pub proof fn result_follows_disconnect(
    signal: PlayerSignal,
    host: DeviceAddr,
    events: Seq<DispatchEventView>,
    j: int,
)
    requires
        0 <= j < events.len(),
        events[0] == DispatchEventView::Connected,
        dispatch_run(fresh_dispatch(signal, host), events).1[j] is Finish,
    ensures
        exists|k: int|
            0 <= k < j && #[trigger] dispatch_run(fresh_dispatch(signal, host), events).1[k]
                is Disconnect,
{
    let s0 = fresh_dispatch(signal, host);
    lemma_dispatch_run_at(s0, events, j);
    if j > 0 {
        lemma_closing_was_asked(signal, host, events, j);
        connection_is_closed_before_the_end(dispatch_run(s0, events.take(j)).0, events[j]);
    }
}

} // verus!
