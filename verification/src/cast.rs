//! The cast session: its target, its life cycle and its playback status.
//!
//! A session is idle until a cast begins. Beginning takes it through three
//! exchanges with the device: connecting, launching the media receiver
//! application, and loading the media. When all three succeed the session
//! streams, and a status loop runs beside it. Closing a streaming session
//! stops playback, ends the status loop and leaves the session idle.
//!
//! [`Caster`] performs none of the exchanges itself. Each call returns a
//! [`SessionAction`]; the caller performs it and reports the outcome to
//! [`Caster::advance`] as a [`SessionEvent`].

use vstd::prelude::*;
use vstd::string::StringExecFns;
use crate::address::DeviceAddr;
use crate::command::{fresh_dispatch, Dispatch, DispatchView, PlayerSignal};
use crate::error::{error_of_failure, CastError, CastErrorView, DeviceFailure, DeviceFailureView};
use crate::status::MediaStatus;
use crate::text::{decimal_text, push_decimal};

verus! {

/// The receiver of a device's control channel.
pub const DESTINATION_ID: &'static str = "receiver-0";

/// The port that cast devices listen on.
pub const CAST_PORT: u16 = 8009;

/// The type of the media that a session loads.
pub const CONTENT_TYPE: &'static str = "video/mp4";

/// Where a session stands.
#[derive(Clone, Copy, Debug, PartialEq, Eq, Structural)]
pub enum SessionPhase {
    /// No cast is under way.
    Idle,
    /// The connection to the device is being opened.
    Connecting,
    /// The device was asked to launch the media receiver application.
    AppLaunching,
    /// The application was asked to load the media.
    MediaLoading,
    /// The media plays, and the status loop runs.
    Streaming,
    /// The status loop is being told to end.
    Closing,
}

/// Where to connect to, and whom to greet there.
#[derive(Debug, PartialEq, Eq)]
pub struct LinkTarget {
    pub host: String,
    pub port: u16,
    pub destination: String,
}

/// The mathematical content of a [`LinkTarget`].
pub struct LinkTargetView {
    pub host: Seq<char>,
    pub port: u16,
    pub destination: Seq<char>,
}

impl View for LinkTarget {
    type V = LinkTargetView;

    open spec fn view(&self) -> LinkTargetView {
        LinkTargetView { host: self.host@, port: self.port, destination: self.destination@ }
    }
}

/// The control channel of the device at `addr`.
pub open spec fn control_link(addr: DeviceAddr) -> LinkTargetView {
    LinkTargetView { host: addr.text(), port: CAST_PORT, destination: DESTINATION_ID@ }
}

/// What the caller reports to a session.
#[derive(Debug, PartialEq, Eq)]
pub enum SessionEvent {
    /// The connection is open and the device was greeted.
    Connected,
    /// The application runs under these identifiers.
    AppLaunched { transport_id: String, session_id: String },
    /// The application took the media.
    MediaLoaded,
    /// The exchange that was asked for failed.
    Failed(DeviceFailure),
    /// The stop command was tried, with whatever result.
    StopAttempted,
    /// The shutdown signal went to the status loop, and the session's handle
    /// on the loop is gone.
    ShutdownSignalled,
    /// The status loop ended by itself because it lost the device.
    LinkLost,
}

/// The mathematical content of a [`SessionEvent`].
pub enum SessionEventView {
    Connected,
    AppLaunched { transport_id: Seq<char>, session_id: Seq<char> },
    MediaLoaded,
    Failed(DeviceFailureView),
    StopAttempted,
    ShutdownSignalled,
    LinkLost,
}

impl View for SessionEvent {
    type V = SessionEventView;

    open spec fn view(&self) -> SessionEventView {
        match self {
            SessionEvent::Connected => SessionEventView::Connected,
            SessionEvent::AppLaunched { transport_id, session_id } => {
                SessionEventView::AppLaunched {
                    transport_id: transport_id@,
                    session_id: session_id@,
                }
            },
            SessionEvent::MediaLoaded => SessionEventView::MediaLoaded,
            SessionEvent::Failed(failure) => SessionEventView::Failed(failure@),
            SessionEvent::StopAttempted => SessionEventView::StopAttempted,
            SessionEvent::ShutdownSignalled => SessionEventView::ShutdownSignalled,
            SessionEvent::LinkLost => SessionEventView::LinkLost,
        }
    }
}

/// What the caller does next for a session.
#[derive(Debug, PartialEq, Eq)]
pub enum SessionAction {
    /// Open a connection to the device and greet its control channel. Report
    /// `Connected` or `Failed`.
    Connect(LinkTarget),
    /// Ask the device to launch the default media receiver application.
    /// Report `AppLaunched` or `Failed`.
    LaunchApp,
    /// Open a channel to the application and have it load the media. Report
    /// `MediaLoaded` or `Failed`.
    LoadMedia { transport_id: String, session_id: String, content_id: String, content_type: String },
    /// Start the status loop on the open connection: the cast has begun.
    StartPoller { transport_id: String },
    /// Try to stop playback with [`Caster::stop`]; a failure is of no
    /// consequence. Report `StopAttempted`.
    StopPlayback,
    /// Send the shutdown signal to the status loop and let go of the handle.
    /// Report `ShutdownSignalled`.
    SignalShutdown,
    /// Give the connection up: the cast did not begin, for this reason.
    Fail(CastError),
    /// Nothing.
    Nothing,
}

/// The mathematical content of a [`SessionAction`].
pub enum SessionActionView {
    Connect(LinkTargetView),
    LaunchApp,
    LoadMedia {
        transport_id: Seq<char>,
        session_id: Seq<char>,
        content_id: Seq<char>,
        content_type: Seq<char>,
    },
    StartPoller { transport_id: Seq<char> },
    StopPlayback,
    SignalShutdown,
    Fail(CastErrorView),
    Nothing,
}

impl View for SessionAction {
    type V = SessionActionView;

    open spec fn view(&self) -> SessionActionView {
        match self {
            SessionAction::Connect(target) => SessionActionView::Connect(target@),
            SessionAction::LaunchApp => SessionActionView::LaunchApp,
            SessionAction::LoadMedia { transport_id, session_id, content_id, content_type } => {
                SessionActionView::LoadMedia {
                    transport_id: transport_id@,
                    session_id: session_id@,
                    content_id: content_id@,
                    content_type: content_type@,
                }
            },
            SessionAction::StartPoller { transport_id } => SessionActionView::StartPoller {
                transport_id: transport_id@,
            },
            SessionAction::StopPlayback => SessionActionView::StopPlayback,
            SessionAction::SignalShutdown => SessionActionView::SignalShutdown,
            SessionAction::Fail(error) => SessionActionView::Fail(error@),
            SessionAction::Nothing => SessionActionView::Nothing,
        }
    }
}

/// A cast session.
#[derive(Debug, PartialEq, Eq)]
pub struct Caster {
    device_addr: Option<DeviceAddr>,
    phase: SessionPhase,
    content_id: String,
    transport_id: String,
    disconnected: bool,
    status: MediaStatus,
}

/// The mathematical content of a [`Caster`].
pub struct CasterView {
    /// The device that casts and commands go to.
    pub device_addr: Option<DeviceAddr>,
    /// Where the session stands.
    pub phase: SessionPhase,
    /// The URL of the media of the cast that was begun last.
    pub content_id: Seq<char>,
    /// The application of the cast that was begun last, once it is launched.
    pub transport_id: Seq<char>,
    /// Whether the status loop lost the device since the last cast began.
    pub disconnected: bool,
    /// The playback status that was published last.
    pub status: MediaStatus,
}

impl View for Caster {
    type V = CasterView;

    closed spec fn view(&self) -> CasterView {
        CasterView {
            device_addr: self.device_addr,
            phase: self.phase,
            content_id: self.content_id@,
            transport_id: self.transport_id@,
            disconnected: self.disconnected,
            status: self.status,
        }
    }
}

/// A session as it is made: idle, without a device, its status `Inactive`.
pub open spec fn fresh_session() -> CasterView {
    CasterView {
        device_addr: None,
        phase: SessionPhase::Idle,
        content_id: Seq::empty(),
        transport_id: Seq::empty(),
        disconnected: false,
        status: MediaStatus::Inactive,
    }
}

/// How many status loops run for a session: one while it streams or closes
/// and the loop has not lost the device, else none.
pub open spec fn running_pollers(s: CasterView) -> nat {
    if (s.phase == SessionPhase::Streaming || s.phase == SessionPhase::Closing)
        && !s.disconnected {
        1
    } else {
        0
    }
}

/// The URL under which this machine serves the media.
pub open spec fn media_url(local_host: Seq<char>, port: u16) -> Seq<char> {
    "http://"@ + local_host + ":"@ + decimal_text(port as nat)
}

/// What beginning a cast does to a session.
///
/// Without a device it is refused with `NoDeviceSelected`, and while a cast
/// is under way with `SessionActive`; the session is then unchanged. Else the
/// session starts connecting to its device's control channel.
pub open spec fn begin_step(s: CasterView, port: u16, local_host: Seq<char>) -> (
    CasterView,
    Result<SessionActionView, CastErrorView>,
) {
    match s.device_addr {
        None => (s, Err(CastErrorView::NoDeviceSelected)),
        Some(addr) => if s.phase != SessionPhase::Idle {
            (s, Err(CastErrorView::SessionActive))
        } else {
            (
                CasterView {
                    phase: SessionPhase::Connecting,
                    content_id: media_url(local_host, port),
                    transport_id: Seq::empty(),
                    disconnected: false,
                    ..s
                },
                Ok(SessionActionView::Connect(control_link(addr))),
            )
        },
    }
}

/// A session whose cast did not begin: idle again, with the reason to report.
pub open spec fn begin_failed(s: CasterView, failure: DeviceFailureView) -> (
    CasterView,
    SessionActionView,
) {
    (
        CasterView { phase: SessionPhase::Idle, ..s },
        SessionActionView::Fail(error_of_failure(failure)),
    )
}

/// What an event does to a session.
///
/// - Connecting, launching and loading follow one another as each succeeds;
///   when the media is loaded the session streams and the status loop is
///   started. A failure of any of the three ends the attempt: the session is
///   idle again and no loop was started.
/// - When the stop command of a closing session was tried, the session tells
///   the status loop to end; when that is done, the session is idle.
/// - A status loop that lost the device leaves its mark on the session.
/// - An event that the phase does not wait for changes nothing.
pub open spec fn session_step(s: CasterView, event: SessionEventView) -> (
    CasterView,
    SessionActionView,
) {
    match (s.phase, event) {
        (SessionPhase::Connecting, SessionEventView::Connected) => (
            CasterView { phase: SessionPhase::AppLaunching, ..s },
            SessionActionView::LaunchApp,
        ),
        (SessionPhase::Connecting, SessionEventView::Failed(failure)) => begin_failed(s, failure),
        (
            SessionPhase::AppLaunching,
            SessionEventView::AppLaunched { transport_id, session_id },
        ) => (
            CasterView { phase: SessionPhase::MediaLoading, transport_id, ..s },
            SessionActionView::LoadMedia {
                transport_id,
                session_id,
                content_id: s.content_id,
                content_type: CONTENT_TYPE@,
            },
        ),
        (SessionPhase::AppLaunching, SessionEventView::Failed(failure)) => begin_failed(
            s,
            failure,
        ),
        (SessionPhase::MediaLoading, SessionEventView::MediaLoaded) => (
            CasterView { phase: SessionPhase::Streaming, disconnected: false, ..s },
            SessionActionView::StartPoller { transport_id: s.transport_id },
        ),
        (SessionPhase::MediaLoading, SessionEventView::Failed(failure)) => begin_failed(
            s,
            failure,
        ),
        (SessionPhase::Streaming, SessionEventView::StopAttempted) => (
            CasterView { phase: SessionPhase::Closing, ..s },
            SessionActionView::SignalShutdown,
        ),
        (SessionPhase::Streaming, SessionEventView::LinkLost) => (
            CasterView { disconnected: true, ..s },
            SessionActionView::Nothing,
        ),
        (SessionPhase::Closing, SessionEventView::LinkLost) => (
            CasterView { disconnected: true, ..s },
            SessionActionView::Nothing,
        ),
        (SessionPhase::Closing, SessionEventView::ShutdownSignalled) => (
            CasterView { phase: SessionPhase::Idle, ..s },
            SessionActionView::Nothing,
        ),
        _ => (s, SessionActionView::Nothing),
    }
}

/// What closing asks of the caller: to stop playback first if the session
/// streams, else nothing. The session itself changes only as the caller
/// reports back.
pub open spec fn close_action(s: CasterView) -> SessionActionView {
    if s.phase == SessionPhase::Streaming {
        SessionActionView::StopPlayback
    } else {
        SessionActionView::Nothing
    }
}

/// The run of a playback command as it starts.
pub open spec fn command_start(s: CasterView, signal: PlayerSignal) -> Result<
    DispatchView,
    CastErrorView,
> {
    match s.device_addr {
        None => Err(CastErrorView::NoDeviceSelected),
        Some(addr) => Ok(fresh_dispatch(signal, addr)),
    }
}

impl Caster {
    /// A session: idle, without a device, its status `Inactive`.
    pub fn new() -> (caster: Caster)
        ensures
            caster@ == fresh_session(),
    {
        Caster {
            device_addr: None,
            phase: SessionPhase::Idle,
            content_id: String::new(),
            transport_id: String::new(),
            disconnected: false,
            status: MediaStatus::Inactive,
        }
    }

    /// The playback status that was published last, as a copy.
    pub fn status(&self) -> (status: MediaStatus)
        ensures
            status == self@.status,
    {
        self.status
    }

    /// Where the session stands.
    pub fn phase(&self) -> (phase: SessionPhase)
        ensures
            phase == self@.phase,
    {
        self.phase
    }

    /// The device that casts and commands go to.
    pub fn device_addr(&self) -> (addr: Option<DeviceAddr>)
        ensures
            addr == self@.device_addr,
    {
        self.device_addr
    }

    /// Whether the media plays and the status loop runs.
    pub fn is_streaming(&self) -> (b: bool)
        ensures
            b == (self@.phase == SessionPhase::Streaming),
    {
        self.phase == SessionPhase::Streaming
    }

    /// Whether the status loop lost the device since the last cast began, so
    /// that the status is stale.
    pub fn is_disconnected(&self) -> (b: bool)
        ensures
            b == self@.disconnected,
    {
        self.disconnected
    }

    /// Takes in what the status loop published, if it published anything:
    /// the new status replaces the old one.
    pub fn refresh_status(&mut self, update: Option<MediaStatus>)
        ensures
            final(self)@ == (CasterView {
                status: match update {
                    Some(status) => status,
                    None => old(self)@.status,
                },
                ..old(self)@
            }),
    {
        match update {
            Some(status) => {
                self.status = status;
            },
            None => {},
        }
    }

    /// Sets the device that casts and commands go to.
    pub fn set_device_addr(&mut self, addr: DeviceAddr)
        ensures
            final(self)@ == (CasterView { device_addr: Some(addr), ..old(self)@ }),
    {
        self.device_addr = Some(addr);
    }

    /// The control channel of the selected device.
    pub fn connect(&self) -> (target: Result<LinkTarget, CastError>)
        ensures
            match self@.device_addr {
                Some(addr) => target is Ok && target->Ok_0@ == control_link(addr),
                None => target is Err && target->Err_0@ == CastErrorView::NoDeviceSelected,
            },
    {
        match self.device_addr {
            Some(addr) => Ok(
                LinkTarget {
                    host: addr.to_text(),
                    port: CAST_PORT,
                    destination: String::from_str(DESTINATION_ID),
                },
            ),
            None => Err(CastError::NoDeviceSelected),
        }
    }

    /// Begins a cast of the media that this machine serves on `port` under
    /// the address `local_host`.
    pub fn begin_cast(&mut self, port: u16, local_host: &str) -> (first: Result<
        SessionAction,
        CastError,
    >)
        ensures
            match first {
                Ok(action) => begin_step(old(self)@, port, local_host@) == (
                    final(self)@,
                    Ok::<SessionActionView, CastErrorView>(action@),
                ),
                Err(error) => begin_step(old(self)@, port, local_host@) == (
                    final(self)@,
                    Err::<SessionActionView, CastErrorView>(error@),
                ),
            },
    {
        let target = match self.connect() {
            Ok(target) => target,
            Err(error) => {
                return Err(error);
            },
        };
        if self.phase != SessionPhase::Idle {
            return Err(CastError::SessionActive);
        }
        let mut url = String::from_str("http://");
        url.append(local_host);
        url.append(":");
        push_decimal(&mut url, port as u64);
        self.phase = SessionPhase::Connecting;
        self.content_id = url;
        self.transport_id = String::new();
        self.disconnected = false;
        Ok(SessionAction::Connect(target))
    }

    /// Takes in what happened and says what to do next.
    pub fn advance(&mut self, event: SessionEvent) -> (action: SessionAction)
        ensures
            (final(self)@, action@) == session_step(old(self)@, event@),
    {
        match event {
            SessionEvent::Connected => {
                if self.phase == SessionPhase::Connecting {
                    self.phase = SessionPhase::AppLaunching;
                    SessionAction::LaunchApp
                } else {
                    SessionAction::Nothing
                }
            },
            SessionEvent::AppLaunched { transport_id, session_id } => {
                if self.phase == SessionPhase::AppLaunching {
                    self.phase = SessionPhase::MediaLoading;
                    self.transport_id = transport_id.clone();
                    SessionAction::LoadMedia {
                        transport_id,
                        session_id,
                        content_id: self.content_id.clone(),
                        content_type: String::from_str(CONTENT_TYPE),
                    }
                } else {
                    SessionAction::Nothing
                }
            },
            SessionEvent::MediaLoaded => {
                if self.phase == SessionPhase::MediaLoading {
                    self.phase = SessionPhase::Streaming;
                    self.disconnected = false;
                    SessionAction::StartPoller { transport_id: self.transport_id.clone() }
                } else {
                    SessionAction::Nothing
                }
            },
            SessionEvent::Failed(failure) => {
                if self.phase == SessionPhase::Connecting || self.phase
                    == SessionPhase::AppLaunching || self.phase == SessionPhase::MediaLoading {
                    self.phase = SessionPhase::Idle;
                    SessionAction::Fail(CastError::from_failure(&failure))
                } else {
                    SessionAction::Nothing
                }
            },
            SessionEvent::StopAttempted => {
                if self.phase == SessionPhase::Streaming {
                    self.phase = SessionPhase::Closing;
                    SessionAction::SignalShutdown
                } else {
                    SessionAction::Nothing
                }
            },
            SessionEvent::ShutdownSignalled => {
                if self.phase == SessionPhase::Closing {
                    self.phase = SessionPhase::Idle;
                }
                SessionAction::Nothing
            },
            SessionEvent::LinkLost => {
                if self.phase == SessionPhase::Streaming || self.phase == SessionPhase::Closing {
                    self.disconnected = true;
                }
                SessionAction::Nothing
            },
        }
    }

    /// Closes the session. A streaming session has playback stopped and then,
    /// as the caller reports back, its status loop ended; a session that does
    /// not stream is left as it is.
    pub fn close(&self) -> (action: SessionAction)
        ensures
            action@ == close_action(self@),
    {
        if self.phase == SessionPhase::Streaming {
            SessionAction::StopPlayback
        } else {
            SessionAction::Nothing
        }
    }

    /// Starts the run of a command that resumes playback.
    pub fn resume(&self) -> (run: Result<Dispatch, CastError>)
        ensures
            match run {
                Ok(dispatch) => command_start(self@, PlayerSignal::Play) == Ok::<
                    DispatchView,
                    CastErrorView,
                >(dispatch@),
                Err(error) => command_start(self@, PlayerSignal::Play) == Err::<
                    DispatchView,
                    CastErrorView,
                >(error@),
            },
    {
        self.change_media_state(PlayerSignal::Play)
    }

    /// Starts the run of a command that pauses playback.
    pub fn pause(&self) -> (run: Result<Dispatch, CastError>)
        ensures
            match run {
                Ok(dispatch) => command_start(self@, PlayerSignal::Pause) == Ok::<
                    DispatchView,
                    CastErrorView,
                >(dispatch@),
                Err(error) => command_start(self@, PlayerSignal::Pause) == Err::<
                    DispatchView,
                    CastErrorView,
                >(error@),
            },
    {
        self.change_media_state(PlayerSignal::Pause)
    }

    /// Starts the run of a command that stops playback.
    pub fn stop(&self) -> (run: Result<Dispatch, CastError>)
        ensures
            match run {
                Ok(dispatch) => command_start(self@, PlayerSignal::Stop) == Ok::<
                    DispatchView,
                    CastErrorView,
                >(dispatch@),
                Err(error) => command_start(self@, PlayerSignal::Stop) == Err::<
                    DispatchView,
                    CastErrorView,
                >(error@),
            },
    {
        self.change_media_state(PlayerSignal::Stop)
    }

    /// Starts the run of a command that moves playback to `position_ms`
    /// milliseconds from the start.
    pub fn seek(&self, position_ms: u64) -> (run: Result<Dispatch, CastError>)
        ensures
            match run {
                Ok(dispatch) => command_start(self@, PlayerSignal::Seek(position_ms)) == Ok::<
                    DispatchView,
                    CastErrorView,
                >(dispatch@),
                Err(error) => command_start(self@, PlayerSignal::Seek(position_ms)) == Err::<
                    DispatchView,
                    CastErrorView,
                >(error@),
            },
    {
        self.change_media_state(PlayerSignal::Seek(position_ms))
    }

    /// Starts the run of a playback command against the selected device.
    fn change_media_state(&self, signal: PlayerSignal) -> (run: Result<Dispatch, CastError>)
        ensures
            match run {
                Ok(dispatch) => command_start(self@, signal) == Ok::<
                    DispatchView,
                    CastErrorView,
                >(dispatch@),
                Err(error) => command_start(self@, signal) == Err::<
                    DispatchView,
                    CastErrorView,
                >(error@),
            },
    {
        match self.device_addr {
            Some(addr) => Ok(Dispatch::new(signal, addr)),
            None => Err(CastError::NoDeviceSelected),
        }
    }
}

/// Whether an action starts a status loop.
pub open spec fn starts_poller(action: SessionActionView) -> bool {
    action is StartPoller
}

/// A cast that begins on an idle session with a device, and whose three
/// exchanges succeed, leaves the session streaming with one status loop
/// running; the loop is started by the last of the four actions and by no
/// other, and none runs before.
pub proof fn begin_starts_exactly_one_poller(
    s: CasterView,
    port: u16,
    local_host: Seq<char>,
    transport_id: Seq<char>,
    session_id: Seq<char>,
)
    requires
        s.device_addr is Some,
        s.phase == SessionPhase::Idle,
    ensures
        ({
            let (s1, first) = begin_step(s, port, local_host);
            let (s2, second) = session_step(s1, SessionEventView::Connected);
            let (s3, third) = session_step(
                s2,
                SessionEventView::AppLaunched { transport_id, session_id },
            );
            let (s4, fourth) = session_step(s3, SessionEventView::MediaLoaded);
            &&& first == Ok::<SessionActionView, CastErrorView>(
                SessionActionView::Connect(control_link(s.device_addr->0)),
            )
            &&& second == SessionActionView::LaunchApp
            &&& third == SessionActionView::LoadMedia {
                transport_id,
                session_id,
                content_id: media_url(local_host, port),
                content_type: CONTENT_TYPE@,
            }
            &&& fourth == SessionActionView::StartPoller { transport_id }
            &&& running_pollers(s1) == 0
            &&& running_pollers(s2) == 0
            &&& running_pollers(s3) == 0
            &&& s4.phase == SessionPhase::Streaming
            &&& running_pollers(s4) == 1
            &&& s4.status == s.status
        }),
{
}

/// A status loop is started only where none runs, and then exactly one runs.
/// Beginning a cast never starts one by itself, and is refused while a cast
/// is under way, so that no second loop can follow the first.
pub proof fn at_most_one_poller(s: CasterView, event: SessionEventView, port: u16, local_host: Seq<char>)
    ensures
        starts_poller(session_step(s, event).1) ==> running_pollers(s) == 0 && running_pollers(
            session_step(s, event).0,
        ) == 1,
        !starts_poller(session_step(s, event).1) ==> running_pollers(session_step(s, event).0)
            <= running_pollers(s),
        running_pollers(begin_step(s, port, local_host).0) == running_pollers(s),
        s.phase != SessionPhase::Idle ==> begin_step(s, port, local_host).0 == s && begin_step(
            s,
            port,
            local_host,
        ).1 is Err,
{
}

/// A failure while a cast begins ends the attempt: the session is idle, the
/// failure is reported as the error it stands for, and no status loop was
/// started or runs.
pub proof fn failed_begin_leaves_no_poller(s: CasterView, failure: DeviceFailureView)
    requires
        s.phase == SessionPhase::Connecting || s.phase == SessionPhase::AppLaunching || s.phase
            == SessionPhase::MediaLoading,
    ensures
        session_step(s, SessionEventView::Failed(failure)).0.phase == SessionPhase::Idle,
        session_step(s, SessionEventView::Failed(failure)).1 == SessionActionView::Fail(
            error_of_failure(failure),
        ),
        running_pollers(session_step(s, SessionEventView::Failed(failure)).0) == 0,
{
}

/// Closing a streaming session stops playback, then ends the status loop,
/// and leaves the session idle with no loop running. Closing it once more
/// asks for nothing and changes nothing.
pub proof fn close_stops_the_poller(s: CasterView)
    requires
        s.phase == SessionPhase::Streaming,
    ensures
        ({
            let (s1, second) = session_step(s, SessionEventView::StopAttempted);
            let (s2, third) = session_step(s1, SessionEventView::ShutdownSignalled);
            &&& close_action(s) == SessionActionView::StopPlayback
            &&& second == SessionActionView::SignalShutdown
            &&& third == SessionActionView::Nothing
            &&& s2.phase == SessionPhase::Idle
            &&& running_pollers(s2) == 0
            &&& close_action(s2) == SessionActionView::Nothing
            &&& s2.status == s.status
            &&& s2.device_addr == s.device_addr
        }),
{
}

/// Closing a session that does not stream asks for nothing.
pub proof fn close_is_idle_when_idle(s: CasterView)
    requires
        s.phase != SessionPhase::Streaming,
    ensures
        close_action(s) == SessionActionView::Nothing,
{
}

/// The status of a session changes only when a status is published: neither
/// beginning a cast nor any event touches it. A new session therefore
/// reports `Inactive` until the status loop of a cast publishes otherwise.
pub proof fn status_changes_only_by_publication(
    s: CasterView,
    event: SessionEventView,
    port: u16,
    local_host: Seq<char>,
)
    ensures
        fresh_session().status == MediaStatus::Inactive,
        session_step(s, event).0.status == s.status,
        begin_step(s, port, local_host).0.status == s.status,
{
}

/// What can happen to a session: a cast is begun, a device is selected, a
/// status is published, or the caller reports an event.
pub enum SessionInput {
    Begin { port: u16, local_host: Seq<char> },
    Select(DeviceAddr),
    Publish(MediaStatus),
    Event(SessionEventView),
}

/// What one input does to a session, and the action it leads to. A cast that
/// is refused counts as the action `Fail`.
pub open spec fn input_step(s: CasterView, input: SessionInput) -> (
    CasterView,
    SessionActionView,
) {
    match input {
        SessionInput::Begin { port, local_host } => (
            begin_step(s, port, local_host).0,
            match begin_step(s, port, local_host).1 {
                Ok(action) => action,
                Err(error) => SessionActionView::Fail(error),
            },
        ),
        SessionInput::Select(addr) => (
            CasterView { device_addr: Some(addr), ..s },
            SessionActionView::Nothing,
        ),
        SessionInput::Publish(status) => (CasterView { status, ..s }, SessionActionView::Nothing),
        SessionInput::Event(event) => session_step(s, event),
    }
}

/// The session after a sequence of inputs, and the actions on the way, one
/// for each input.
pub open spec fn session_run(s: CasterView, inputs: Seq<SessionInput>) -> (
    CasterView,
    Seq<SessionActionView>,
)
    decreases inputs.len(),
{
    if inputs.len() == 0 {
        (s, Seq::empty())
    } else {
        let before = session_run(s, inputs.drop_last());
        let last = input_step(before.0, inputs.last());
        (last.0, before.1.push(last.1))
    }
}

/// Whether a session holds a handle on a status loop.
pub open spec fn holds_poller(s: CasterView) -> bool {
    s.phase == SessionPhase::Streaming || s.phase == SessionPhase::Closing
}

/// Whether an input reports that the status loop was told to end.
pub open spec fn signals_shutdown(input: SessionInput) -> bool {
    input == SessionInput::Event(SessionEventView::ShutdownSignalled)
}

/// A run yields one action for each input, and the action at `k` is that of
/// the `k`-th input on the session as the inputs before it left it.
proof fn lemma_run_at(s: CasterView, inputs: Seq<SessionInput>, k: int)
    requires
        0 <= k < inputs.len(),
    ensures
        session_run(s, inputs).1.len() == inputs.len(),
        session_run(s, inputs).1[k] == input_step(
            session_run(s, inputs.take(k)).0,
            inputs[k],
        ).1,
        session_run(s, inputs.take(k + 1)).0 == input_step(
            session_run(s, inputs.take(k)).0,
            inputs[k],
        ).0,
    decreases inputs.len(),
{
    let before = inputs.drop_last();
    assert(inputs.take(k + 1).drop_last() =~= inputs.take(k));
    if k == inputs.len() - 1 {
        if before.len() > 0 {
            lemma_run_at(s, before, 0);
        } else {
            assert(session_run(s, before).1.len() == 0);
        }
    } else {
        lemma_run_at(s, before, k);
        assert(before.take(k) =~= inputs.take(k));
    }
}

/// From the input that starts a status loop on, the session holds the handle
/// on that loop for as long as no input reports that the loop was told to
/// end.
proof fn lemma_poller_is_held(s: CasterView, inputs: Seq<SessionInput>, i: int, j: int)
    requires
        0 <= i < j <= inputs.len(),
        starts_poller(session_run(s, inputs).1[i]),
        forall|k: int| i < k < j ==> !signals_shutdown(#[trigger] inputs[k]),
    ensures
        holds_poller(session_run(s, inputs.take(j)).0),
    decreases j - i,
{
    if j == i + 1 {
        lemma_run_at(s, inputs, i);
    } else {
        lemma_poller_is_held(s, inputs, i, j - 1);
        lemma_run_at(s, inputs, j - 1);
    }
}

/// At most one status loop lives at a time: whatever is done to a session and
/// in whatever order, a second loop is started only after the session has
/// told the first one to end.
pub proof fn pollers_never_overlap(s: CasterView, inputs: Seq<SessionInput>, i: int, j: int)
    requires
        0 <= i < j < inputs.len(),
        starts_poller(session_run(s, inputs).1[i]),
        starts_poller(session_run(s, inputs).1[j]),
    ensures
        exists|k: int| i < k < j && signals_shutdown(#[trigger] inputs[k]),
{
    if forall|k: int| i < k < j ==> !signals_shutdown(#[trigger] inputs[k]) {
        lemma_poller_is_held(s, inputs, i, j);
        lemma_run_at(s, inputs, j);
    }
}

} // verus!
