use mucast::address::DeviceAddr;
use mucast::cast::{Caster, LinkTarget};
use mucast::command::{
    copy_outcome, Dispatch, DispatchAction, DispatchEvent, DispatchPhase, PlayerSignal,
    RunningApp, WireCommand,
};
use mucast::error::{CastError, DeviceFailure, FailureSource};
use mucast::status::{PlayerState, StatusEntry};

fn tv() -> DeviceAddr {
    DeviceAddr::V4 { a: 10, b: 0, c: 0, d: 5 }
}

fn apps() -> Vec<RunningApp> {
    vec![
        RunningApp { transport_id: "transport-7".to_string() },
        RunningApp { transport_id: "transport-8".to_string() },
    ]
}

fn entries() -> Vec<StatusEntry> {
    vec![
        StatusEntry {
            media_session_id: 42,
            player_state: PlayerState::Playing,
            current_time_ms: Some(1500),
            duration_ms: Some(60_000),
        },
        StatusEntry {
            media_session_id: 43,
            player_state: PlayerState::Paused,
            current_time_ms: None,
            duration_ms: None,
        },
    ]
}

fn disconnect() -> DispatchAction {
    DispatchAction::Disconnect { destination: "receiver-0".to_string() }
}

fn run_until_media(signal: PlayerSignal) -> Dispatch {
    let mut run = Dispatch::new(signal, tv());
    assert_eq!(run.step(DispatchEvent::Connected), DispatchAction::GetReceiverStatus);
    assert_eq!(
        run.step(DispatchEvent::ReceiverStatus(apps())),
        DispatchAction::Join { transport_id: "transport-7".to_string() }
    );
    assert_eq!(
        run.step(DispatchEvent::Joined),
        DispatchAction::GetMediaStatus { transport_id: "transport-7".to_string() }
    );
    run
}

fn signals() -> Vec<PlayerSignal> {
    vec![PlayerSignal::Play, PlayerSignal::Pause, PlayerSignal::Stop, PlayerSignal::Seek(90_000)]
}

#[test]
fn a_run_starts_by_connecting() {
    let run = Dispatch::new(PlayerSignal::Pause, tv());
    assert_eq!(run.phase(), DispatchPhase::Connecting);
    assert_eq!(
        run.start(),
        DispatchAction::Connect(LinkTarget {
            host: "10.0.0.5".to_string(),
            port: 8009,
            destination: "receiver-0".to_string(),
        })
    );
}

#[test]
fn every_signal_is_sent_to_the_first_media_session() {
    for signal in signals() {
        let mut run = run_until_media(signal);
        assert_eq!(
            run.step(DispatchEvent::MediaStatus(entries())),
            DispatchAction::Send(WireCommand {
                signal,
                transport_id: "transport-7".to_string(),
                media_session_id: 42,
            })
        );
        assert_eq!(run.step(DispatchEvent::Sent), disconnect());
        assert_eq!(run.step(DispatchEvent::Disconnected), DispatchAction::Finish(Ok(())));
        assert_eq!(run.phase(), DispatchPhase::Finished);
        assert_eq!(run.step(DispatchEvent::Connected), DispatchAction::Finish(Ok(())));
    }
}

#[test]
fn every_signal_fails_with_no_active_media_and_sends_nothing() {
    for signal in signals() {
        let mut run = run_until_media(signal);
        assert_eq!(run.step(DispatchEvent::MediaStatus(vec![])), disconnect());
        assert_eq!(run.phase(), DispatchPhase::Closing);
        assert_eq!(
            run.step(DispatchEvent::Disconnected),
            DispatchAction::Finish(Err(CastError::NoActiveMedia))
        );
    }
}

#[test]
fn no_running_application_is_no_active_media() {
    let mut run = Dispatch::new(PlayerSignal::Stop, tv());
    run.step(DispatchEvent::Connected);
    assert_eq!(run.step(DispatchEvent::ReceiverStatus(vec![])), disconnect());
    assert_eq!(
        run.step(DispatchEvent::Disconnected),
        DispatchAction::Finish(Err(CastError::NoActiveMedia))
    );
}

#[test]
fn a_failed_connection_ends_the_run_at_once() {
    let mut run = Dispatch::new(PlayerSignal::Play, tv());
    let failure = DeviceFailure { source: FailureSource::Io, detail: "refused".to_string() };
    assert_eq!(
        run.step(DispatchEvent::Failed(failure)),
        DispatchAction::Finish(Err(CastError::TransportError("refused".to_string())))
    );
    assert_eq!(run.phase(), DispatchPhase::Finished);
}

#[test]
fn a_failure_on_the_open_connection_closes_it_first() {
    let mut run = run_until_media(PlayerSignal::Seek(5));
    let failure = DeviceFailure { source: FailureSource::Parsing, detail: "garbled".to_string() };
    assert_eq!(run.step(DispatchEvent::Failed(failure)), disconnect());
    let closing = DeviceFailure { source: FailureSource::Io, detail: "gone".to_string() };
    assert_eq!(
        run.step(DispatchEvent::Failed(closing)),
        DispatchAction::Finish(Err(CastError::ProtocolError("garbled".to_string())))
    );
}

#[test]
fn a_failed_send_is_reported() {
    let mut run = run_until_media(PlayerSignal::Pause);
    run.step(DispatchEvent::MediaStatus(entries()));
    let failure = DeviceFailure { source: FailureSource::Timeout, detail: "too slow".to_string() };
    assert_eq!(run.step(DispatchEvent::Failed(failure)), disconnect());
    assert_eq!(
        run.step(DispatchEvent::Disconnected),
        DispatchAction::Finish(Err(CastError::TransportError("too slow".to_string())))
    );
}

#[test]
fn an_event_out_of_turn_is_a_protocol_error() {
    let unexpected = CastError::ProtocolError("Unexpected answer from the device.".to_string());
    let mut run = Dispatch::new(PlayerSignal::Play, tv());
    assert_eq!(run.step(DispatchEvent::Sent), DispatchAction::Finish(Err(unexpected.clone())));

    let mut run = Dispatch::new(PlayerSignal::Play, tv());
    run.step(DispatchEvent::Connected);
    assert_eq!(run.step(DispatchEvent::MediaStatus(entries())), disconnect());
    assert_eq!(run.step(DispatchEvent::Disconnected), DispatchAction::Finish(Err(unexpected)));
}

#[test]
fn commands_of_a_session_go_to_its_device() {
    let mut caster = Caster::new();
    caster.set_device_addr(tv());
    let run = caster.seek(30_000).unwrap();
    assert_eq!(
        run.start(),
        DispatchAction::Connect(LinkTarget {
            host: "10.0.0.5".to_string(),
            port: 8009,
            destination: "receiver-0".to_string(),
        })
    );
    let mut run = run;
    run.step(DispatchEvent::Connected);
    run.step(DispatchEvent::ReceiverStatus(apps()));
    run.step(DispatchEvent::Joined);
    assert_eq!(
        run.step(DispatchEvent::MediaStatus(entries())),
        DispatchAction::Send(WireCommand {
            signal: PlayerSignal::Seek(30_000),
            transport_id: "transport-7".to_string(),
            media_session_id: 42,
        })
    );
}

#[test]
fn copy_of_an_outcome_is_equal() {
    assert_eq!(copy_outcome(&Ok(())), Ok(()));
    assert_eq!(copy_outcome(&Err(CastError::NoActiveMedia)), Err(CastError::NoActiveMedia));
}
