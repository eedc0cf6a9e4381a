use mucast::address::DeviceAddr;
use mucast::cast::{
    Caster, LinkTarget, SessionAction, SessionEvent, SessionPhase, CAST_PORT, CONTENT_TYPE,
    DESTINATION_ID,
};
use mucast::command::DispatchPhase;
use mucast::error::{CastError, DeviceFailure, FailureSource};
use mucast::status::{MediaStatus, PlayerState, StatusEntry};

fn tv() -> DeviceAddr {
    DeviceAddr::V4 { a: 10, b: 0, c: 0, d: 5 }
}

fn launched() -> SessionEvent {
    SessionEvent::AppLaunched {
        transport_id: "transport-7".to_string(),
        session_id: "session-3".to_string(),
    }
}

fn streaming() -> Caster {
    let mut caster = Caster::new();
    caster.set_device_addr(tv());
    caster.begin_cast(8009, "192.168.1.2").unwrap();
    caster.advance(SessionEvent::Connected);
    caster.advance(launched());
    caster.advance(SessionEvent::MediaLoaded);
    caster
}

#[test]
fn constants_of_the_link() {
    assert_eq!(DESTINATION_ID, "receiver-0");
    assert_eq!(CAST_PORT, 8009);
    assert_eq!(CONTENT_TYPE, "video/mp4");
}

#[test]
fn a_new_session_is_idle_and_inactive() {
    let caster = Caster::new();
    assert_eq!(caster.status(), MediaStatus::Inactive);
    assert_eq!(caster.phase(), SessionPhase::Idle);
    assert_eq!(caster.device_addr(), None);
    assert!(!caster.is_streaming());
    assert!(!caster.is_disconnected());
}

#[test]
fn begin_without_a_device_is_refused() {
    let mut caster = Caster::new();
    assert_eq!(caster.begin_cast(8009, "192.168.1.2"), Err(CastError::NoDeviceSelected));
    assert_eq!(caster.phase(), SessionPhase::Idle);
    assert_eq!(caster.connect(), Err(CastError::NoDeviceSelected));
}

#[test]
fn connect_names_the_control_channel() {
    let mut caster = Caster::new();
    caster.set_device_addr(tv());
    assert_eq!(
        caster.connect(),
        Ok(LinkTarget {
            host: "10.0.0.5".to_string(),
            port: 8009,
            destination: "receiver-0".to_string(),
        })
    );
}

#[test]
fn begin_walks_through_connect_launch_load_and_starts_one_poller() {
    let mut caster = Caster::new();
    caster.set_device_addr(tv());
    assert_eq!(
        caster.begin_cast(8009, "192.168.1.2"),
        Ok(SessionAction::Connect(LinkTarget {
            host: "10.0.0.5".to_string(),
            port: 8009,
            destination: "receiver-0".to_string(),
        }))
    );
    assert_eq!(caster.phase(), SessionPhase::Connecting);
    assert_eq!(caster.advance(SessionEvent::Connected), SessionAction::LaunchApp);
    assert_eq!(caster.phase(), SessionPhase::AppLaunching);
    assert_eq!(
        caster.advance(launched()),
        SessionAction::LoadMedia {
            transport_id: "transport-7".to_string(),
            session_id: "session-3".to_string(),
            content_id: "http://192.168.1.2:8009".to_string(),
            content_type: "video/mp4".to_string(),
        }
    );
    assert_eq!(caster.phase(), SessionPhase::MediaLoading);
    assert_eq!(
        caster.advance(SessionEvent::MediaLoaded),
        SessionAction::StartPoller { transport_id: "transport-7".to_string() }
    );
    assert_eq!(caster.phase(), SessionPhase::Streaming);
    assert!(caster.is_streaming());
    assert_eq!(caster.advance(SessionEvent::MediaLoaded), SessionAction::Nothing);
    assert_eq!(caster.status(), MediaStatus::Inactive);
}

#[test]
fn begin_while_a_cast_is_under_way_is_refused() {
    let mut caster = streaming();
    assert_eq!(caster.begin_cast(8010, "192.168.1.2"), Err(CastError::SessionActive));
    assert_eq!(caster.phase(), SessionPhase::Streaming);
}

#[test]
fn a_failed_exchange_ends_the_attempt() {
    for steps in 0..3 {
        let mut caster = Caster::new();
        caster.set_device_addr(tv());
        caster.begin_cast(8009, "192.168.1.2").unwrap();
        if steps > 0 {
            caster.advance(SessionEvent::Connected);
        }
        if steps > 1 {
            caster.advance(launched());
        }
        let failure = DeviceFailure { source: FailureSource::Io, detail: "reset".to_string() };
        assert_eq!(
            caster.advance(SessionEvent::Failed(failure)),
            SessionAction::Fail(CastError::TransportError("reset".to_string()))
        );
        assert_eq!(caster.phase(), SessionPhase::Idle);
        assert!(!caster.is_streaming());
    }
}

#[test]
fn a_launch_that_the_device_garbles_is_a_protocol_error() {
    let mut caster = Caster::new();
    caster.set_device_addr(tv());
    caster.begin_cast(8009, "192.168.1.2").unwrap();
    caster.advance(SessionEvent::Connected);
    let failure = DeviceFailure { source: FailureSource::Parsing, detail: "no app".to_string() };
    assert_eq!(
        caster.advance(SessionEvent::Failed(failure)),
        SessionAction::Fail(CastError::ProtocolError("no app".to_string()))
    );
}

#[test]
fn close_stops_playback_then_the_poller() {
    let mut caster = streaming();
    assert_eq!(caster.close(), SessionAction::StopPlayback);
    assert_eq!(caster.advance(SessionEvent::StopAttempted), SessionAction::SignalShutdown);
    assert_eq!(caster.phase(), SessionPhase::Closing);
    assert_eq!(caster.advance(SessionEvent::ShutdownSignalled), SessionAction::Nothing);
    assert_eq!(caster.phase(), SessionPhase::Idle);
    assert_eq!(caster.close(), SessionAction::Nothing);
    assert_eq!(caster.phase(), SessionPhase::Idle);
    assert_eq!(caster.device_addr(), Some(tv()));
}

#[test]
fn close_of_an_idle_session_does_nothing() {
    let caster = Caster::new();
    assert_eq!(caster.close(), SessionAction::Nothing);
    assert_eq!(caster.close(), SessionAction::Nothing);
    assert_eq!(caster.phase(), SessionPhase::Idle);
}

#[test]
fn a_session_can_begin_again_after_close() {
    let mut caster = streaming();
    caster.close();
    caster.advance(SessionEvent::StopAttempted);
    caster.advance(SessionEvent::ShutdownSignalled);
    assert!(caster.begin_cast(9000, "10.0.0.1").is_ok());
    caster.advance(SessionEvent::Connected);
    match caster.advance(launched()) {
        SessionAction::LoadMedia { content_id, .. } => assert_eq!(content_id, "http://10.0.0.1:9000"),
        other => panic!("{:?}", other),
    }
}

#[test]
fn events_out_of_turn_change_nothing() {
    let mut caster = Caster::new();
    assert_eq!(caster.advance(SessionEvent::Connected), SessionAction::Nothing);
    assert_eq!(caster.advance(launched()), SessionAction::Nothing);
    assert_eq!(caster.advance(SessionEvent::StopAttempted), SessionAction::Nothing);
    assert_eq!(caster.advance(SessionEvent::ShutdownSignalled), SessionAction::Nothing);
    assert_eq!(caster.advance(SessionEvent::LinkLost), SessionAction::Nothing);
    let failure = DeviceFailure { source: FailureSource::Io, detail: "late".to_string() };
    assert_eq!(caster.advance(SessionEvent::Failed(failure)), SessionAction::Nothing);
    assert_eq!(caster.phase(), SessionPhase::Idle);
    assert!(!caster.is_disconnected());
}

#[test]
fn a_lost_link_marks_the_session() {
    let mut caster = streaming();
    assert_eq!(caster.advance(SessionEvent::LinkLost), SessionAction::Nothing);
    assert!(caster.is_disconnected());
    assert!(caster.is_streaming());
    caster.close();
    caster.advance(SessionEvent::StopAttempted);
    caster.advance(SessionEvent::ShutdownSignalled);
    caster.begin_cast(8009, "192.168.1.2").unwrap();
    assert!(!caster.is_disconnected());
}

#[test]
fn refresh_status_overwrites_or_keeps() {
    let mut caster = Caster::new();
    let entry = StatusEntry {
        media_session_id: 4,
        player_state: PlayerState::Playing,
        current_time_ms: Some(0),
        duration_ms: None,
    };
    caster.refresh_status(None);
    assert_eq!(caster.status(), MediaStatus::Inactive);
    caster.refresh_status(Some(MediaStatus::Active(entry)));
    assert_eq!(caster.status(), MediaStatus::Active(entry));
    caster.refresh_status(None);
    assert_eq!(caster.status(), MediaStatus::Active(entry));
    caster.refresh_status(Some(MediaStatus::Inactive));
    assert_eq!(caster.status(), MediaStatus::Inactive);
}

#[test]
fn status_survives_begin_and_close() {
    let mut caster = streaming();
    let entry = StatusEntry {
        media_session_id: 4,
        player_state: PlayerState::Paused,
        current_time_ms: Some(10),
        duration_ms: Some(20),
    };
    caster.refresh_status(Some(MediaStatus::Active(entry)));
    caster.close();
    caster.advance(SessionEvent::StopAttempted);
    caster.advance(SessionEvent::ShutdownSignalled);
    assert_eq!(caster.status(), MediaStatus::Active(entry));
    caster.begin_cast(8009, "192.168.1.2").unwrap();
    assert_eq!(caster.status(), MediaStatus::Active(entry));
}

#[test]
fn commands_without_a_device_fail() {
    let caster = Caster::new();
    assert_eq!(caster.resume().err(), Some(CastError::NoDeviceSelected));
    assert_eq!(caster.pause().err(), Some(CastError::NoDeviceSelected));
    assert_eq!(caster.stop().err(), Some(CastError::NoDeviceSelected));
    assert_eq!(caster.seek(1000).err(), Some(CastError::NoDeviceSelected));
}

#[test]
fn commands_with_a_device_start_a_run() {
    let mut caster = Caster::new();
    caster.set_device_addr(tv());
    assert_eq!(caster.pause().unwrap().phase(), DispatchPhase::Connecting);
}
