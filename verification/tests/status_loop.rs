use mucast::poller::{
    LoopAction, LoopEvent, LoopPhase, MessageKind, ShutdownPoll, StatusLoop,
    FIRST_STATUS_DELAY_MS, STATUS_INTERVAL_MS,
};
use mucast::status::{MediaStatus, PlayerState, StatusEntry};

fn entry(state: PlayerState) -> StatusEntry {
    StatusEntry { media_session_id: 9, player_state: state, current_time_ms: Some(0), duration_ms: None }
}

#[test]
fn intervals() {
    assert_eq!(FIRST_STATUS_DELAY_MS, 5000);
    assert_eq!(STATUS_INTERVAL_MS, 500);
}

#[test]
fn a_new_loop_polls_the_shutdown_signal_first() {
    let status_loop = StatusLoop::new();
    assert_eq!(status_loop.phase, LoopPhase::PollingShutdown);
    assert_eq!(status_loop.interval_ms, 5000);
    assert!(!status_loop.disconnected);
    assert_eq!(status_loop.awaited(), LoopAction::PollShutdown);
    assert!(!status_loop.has_exited());
}

#[test]
fn shutdown_signal_ends_the_loop() {
    let mut status_loop = StatusLoop::new();
    assert_eq!(
        status_loop.step(&LoopEvent::Shutdown(ShutdownPoll::Signalled)),
        LoopAction::Exit { disconnected: false }
    );
    assert!(status_loop.has_exited());
    assert_eq!(
        status_loop.step(&LoopEvent::Message(MessageKind::HeartbeatPing)),
        LoopAction::Exit { disconnected: false }
    );
}

#[test]
fn dropped_sender_ends_the_loop() {
    let mut status_loop = StatusLoop::new();
    assert_eq!(
        status_loop.step(&LoopEvent::Shutdown(ShutdownPoll::SenderDropped)),
        LoopAction::Exit { disconnected: false }
    );
    assert!(status_loop.has_exited());
}

#[test]
fn ping_is_answered_with_pong() {
    let mut status_loop = StatusLoop::new();
    assert_eq!(status_loop.step(&LoopEvent::Shutdown(ShutdownPoll::Empty)), LoopAction::Receive);
    assert_eq!(
        status_loop.step(&LoopEvent::Message(MessageKind::HeartbeatPing)),
        LoopAction::SendPong
    );
    assert_eq!(status_loop.step(&LoopEvent::PongSent), LoopAction::ReadClock);
    assert_eq!(status_loop.step(&LoopEvent::Clock(10)), LoopAction::PollShutdown);
}

#[test]
fn other_messages_are_not_answered() {
    for kind in [
        MessageKind::HeartbeatPong,
        MessageKind::HeartbeatOther,
        MessageKind::Connection,
        MessageKind::Media,
        MessageKind::Receiver,
        MessageKind::Raw,
    ] {
        let mut status_loop = StatusLoop::new();
        status_loop.step(&LoopEvent::Shutdown(ShutdownPoll::Empty));
        assert_eq!(status_loop.step(&LoopEvent::Message(kind)), LoopAction::ReadClock);
        assert_eq!(status_loop.interval_ms, 5000);
    }
}

#[test]
fn first_fetch_waits_five_seconds_then_half_a_second() {
    let mut status_loop = StatusLoop::new();
    status_loop.step(&LoopEvent::Shutdown(ShutdownPoll::Empty));
    status_loop.step(&LoopEvent::Message(MessageKind::Media));
    assert_eq!(status_loop.step(&LoopEvent::Clock(4999)), LoopAction::PollShutdown);
    status_loop.step(&LoopEvent::Shutdown(ShutdownPoll::Empty));
    status_loop.step(&LoopEvent::Message(MessageKind::Media));
    assert_eq!(status_loop.step(&LoopEvent::Clock(5000)), LoopAction::FetchStatus);
    assert_eq!(status_loop.interval_ms, 500);
    assert_eq!(
        status_loop.step(&LoopEvent::StatusFetched(vec![entry(PlayerState::Playing)])),
        LoopAction::Publish(MediaStatus::Active(entry(PlayerState::Playing)))
    );
    status_loop.step(&LoopEvent::Shutdown(ShutdownPoll::Empty));
    status_loop.step(&LoopEvent::Message(MessageKind::Receiver));
    assert_eq!(status_loop.step(&LoopEvent::Clock(499)), LoopAction::PollShutdown);
    status_loop.step(&LoopEvent::Shutdown(ShutdownPoll::Empty));
    status_loop.step(&LoopEvent::Message(MessageKind::Receiver));
    assert_eq!(status_loop.step(&LoopEvent::Clock(500)), LoopAction::FetchStatus);
}

#[test]
fn no_media_session_is_published_as_inactive() {
    let mut status_loop = StatusLoop { phase: LoopPhase::FetchingStatus, interval_ms: 500, disconnected: false };
    assert_eq!(
        status_loop.step(&LoopEvent::StatusFetched(vec![])),
        LoopAction::Publish(MediaStatus::Inactive)
    );
    assert_eq!(status_loop.phase, LoopPhase::PollingShutdown);
}

#[test]
fn failed_fetch_does_not_end_the_loop() {
    let mut status_loop = StatusLoop { phase: LoopPhase::FetchingStatus, interval_ms: 500, disconnected: false };
    assert_eq!(status_loop.step(&LoopEvent::StatusFailed), LoopAction::PollShutdown);
    assert!(!status_loop.has_exited());
    assert!(!status_loop.disconnected);
    assert_eq!(status_loop.interval_ms, 500);
}

#[test]
fn failed_receive_ends_the_loop_as_disconnected() {
    let mut status_loop = StatusLoop::new();
    status_loop.step(&LoopEvent::Shutdown(ShutdownPoll::Empty));
    assert_eq!(status_loop.step(&LoopEvent::ReceiveFailed), LoopAction::Exit { disconnected: true });
    assert!(status_loop.has_exited());
    assert!(status_loop.disconnected);
    assert_eq!(status_loop.awaited(), LoopAction::Exit { disconnected: true });
}

#[test]
fn failed_pong_ends_the_loop_as_disconnected() {
    let mut status_loop = StatusLoop::new();
    status_loop.step(&LoopEvent::Shutdown(ShutdownPoll::Empty));
    status_loop.step(&LoopEvent::Message(MessageKind::HeartbeatPing));
    assert_eq!(status_loop.step(&LoopEvent::PongFailed), LoopAction::Exit { disconnected: true });
    assert!(status_loop.has_exited());
}

#[test]
fn an_event_out_of_turn_repeats_the_awaited_action() {
    let mut status_loop = StatusLoop::new();
    assert_eq!(status_loop.step(&LoopEvent::Clock(9000)), LoopAction::PollShutdown);
    assert_eq!(status_loop.step(&LoopEvent::StatusFetched(vec![])), LoopAction::PollShutdown);
    status_loop.step(&LoopEvent::Shutdown(ShutdownPoll::Empty));
    assert_eq!(status_loop.step(&LoopEvent::Shutdown(ShutdownPoll::Signalled)), LoopAction::Receive);
    assert_eq!(status_loop.step(&LoopEvent::PongSent), LoopAction::Receive);
    assert_eq!(status_loop.phase, LoopPhase::Receiving);
}
