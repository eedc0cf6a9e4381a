use mucast::address::DeviceAddr;
use mucast::api::{
    await_api_response, reply_of_listing, reply_to, reply_to_outcome, Api, CastSignal, Directive,
    GetType, PutType, ReplyPoll, Request,
};
use mucast::cast::{SessionEvent, SessionPhase};
use mucast::command::{DispatchAction, DispatchEvent, PlayerSignal, RunningApp, WireCommand};
use mucast::discovery::DiscoveredDevice;
use mucast::error::{ApiError, CastError};
use mucast::status::{MediaStatus, PlayerState, StatusEntry};

fn tv() -> DiscoveredDevice {
    DiscoveredDevice {
        friendly_name: "LivingRoomTV".to_string(),
        address: DeviceAddr::V4 { a: 10, b: 0, c: 0, d: 5 },
    }
}

fn speaker() -> DiscoveredDevice {
    DiscoveredDevice {
        friendly_name: "Kitchen \"Mini\"".to_string(),
        address: DeviceAddr::V6 { s0: 0xfe80, s1: 0, s2: 0, s3: 0, s4: 0, s5: 0, s6: 0, s7: 0x9 },
    }
}

fn with_devices() -> Api {
    let mut api = Api::new();
    assert_eq!(api.discover_chromecasts(Ok(vec![tv(), speaker()])), Ok(()));
    api
}

fn streaming() -> Api {
    let mut api = with_devices();
    api.select_chromecast(&tv()).unwrap();
    api.caster.begin_cast(8009, "192.168.1.2").unwrap();
    api.caster.advance(SessionEvent::Connected);
    api.caster.advance(SessionEvent::AppLaunched {
        transport_id: "transport-7".to_string(),
        session_id: "session-3".to_string(),
    });
    api.caster.advance(SessionEvent::MediaLoaded);
    api
}

fn reply(text: &str) -> Directive {
    Directive::Reply(text.to_string())
}

#[test]
fn a_new_interface_knows_no_devices() {
    let api = Api::new();
    assert!(api.get_discovered_chromecasts().is_empty());
    assert_eq!(api.current_chromecast, None);
    assert_eq!(api.caster.status(), MediaStatus::Inactive);
}

#[test]
fn discovery_replaces_the_list() {
    let mut api = with_devices();
    assert_eq!(api.get_discovered_chromecasts(), &vec![tv(), speaker()]);
    assert_eq!(api.discover_chromecasts(Ok(vec![speaker()])), Ok(()));
    assert_eq!(api.get_discovered_chromecasts(), &vec![speaker()]);
}

#[test]
fn failed_discovery_keeps_the_list() {
    let mut api = with_devices();
    assert_eq!(
        api.discover_chromecasts(Err(CastError::TransportError("no interface".to_string()))),
        Err(ApiError::CastError(CastError::TransportError("no interface".to_string())))
    );
    assert_eq!(api.get_discovered_chromecasts(), &vec![tv(), speaker()]);
}

#[test]
fn select_of_an_undiscovered_device_fails() {
    let mut api = Api::new();
    assert_eq!(
        api.select_chromecast(&tv()),
        Err(ApiError::CastError(CastError::DeviceNotFound))
    );
    assert_eq!(api.caster.device_addr(), None);
    assert_eq!(api.current_chromecast, None);

    let mut api = Api::new();
    api.discover_chromecasts(Ok(vec![speaker()])).unwrap();
    assert_eq!(
        api.select_chromecast(&tv()),
        Err(ApiError::CastError(CastError::DeviceNotFound))
    );
    assert_eq!(api.caster.device_addr(), None);
}

#[test]
fn select_only_knows_the_most_recent_discovery() {
    let mut api = with_devices();
    api.discover_chromecasts(Ok(vec![speaker()])).unwrap();
    assert_eq!(
        api.select_chromecast(&tv()),
        Err(ApiError::CastError(CastError::DeviceNotFound))
    );
}

#[test]
fn select_of_a_discovered_device_is_idempotent() {
    let mut api = with_devices();
    assert_eq!(api.select_chromecast(&tv()), Ok(()));
    assert_eq!(api.caster.device_addr(), Some(tv().address));
    assert_eq!(api.current_chromecast, Some(tv()));
    assert_eq!(api.select_chromecast(&tv()), Ok(()));
    assert_eq!(api.caster.device_addr(), Some(tv().address));
    assert_eq!(api.current_chromecast, Some(tv()));
    assert_eq!(api.get_discovered_chromecasts(), &vec![tv(), speaker()]);
}

#[test]
fn select_decides_by_the_address_alone() {
    let mut api = with_devices();
    let renamed = DiscoveredDevice { friendly_name: "Other".to_string(), address: tv().address };
    assert_eq!(api.select_chromecast(&renamed), Ok(()));
    assert_eq!(api.caster.device_addr(), Some(tv().address));
    assert_eq!(api.current_chromecast, Some(tv()));

    let elsewhere = DiscoveredDevice {
        friendly_name: "LivingRoomTV".to_string(),
        address: DeviceAddr::V4 { a: 10, b: 0, c: 0, d: 6 },
    };
    assert_eq!(
        api.select_chromecast(&elsewhere),
        Err(ApiError::CastError(CastError::DeviceNotFound))
    );
    assert_eq!(api.caster.device_addr(), Some(tv().address));
    assert_eq!(api.current_chromecast, Some(tv()));
}

#[test]
fn find_with_address_gives_the_discovered_entry() {
    let api = with_devices();
    assert_eq!(api.find_with_address(tv().address), Some(tv()));
    assert_eq!(api.find_with_address(speaker().address), Some(speaker()));
    assert_eq!(api.find_with_address(DeviceAddr::V4 { a: 10, b: 0, c: 0, d: 6 }), None);
    assert_eq!(Api::new().find_with_address(tv().address), None);
}

#[test]
fn find_by_address_reads_the_text() {
    let api = with_devices();
    assert_eq!(api.find_by_address(&"10.0.0.5".to_string()), Some(tv()));
    assert_eq!(api.find_by_address(&"fe80::9".to_string()), Some(speaker()));
    assert_eq!(api.find_by_address(&"10.0.0.6".to_string()), None);
    assert_eq!(api.find_by_address(&"010.0.0.5".to_string()), None);
}

#[test]
fn request_to_select_by_address() {
    let mut api = with_devices();
    assert_eq!(
        api.handle_request(Request::Put(PutType::SelectChromecast("10.0.0.5".to_string()))),
        reply("Success.")
    );
    assert_eq!(api.caster.device_addr(), Some(tv().address));
    assert_eq!(
        api.handle_request(Request::Put(PutType::SelectChromecast("10.0.0.99".to_string()))),
        reply("Chromecast not found.")
    );
    assert_eq!(api.caster.device_addr(), Some(tv().address));
}

#[test]
fn request_to_discover_is_handed_back() {
    let mut api = Api::new();
    assert_eq!(api.handle_request(Request::Put(PutType::DiscoverChromecasts)), Directive::Discover);
    let result = api.discover_chromecasts(Ok(vec![tv()]));
    assert_eq!(reply_to(&result), "Success.");
    let result = api.discover_chromecasts(Err(CastError::TransportError("down".to_string())));
    assert_eq!(reply_to(&result), "down");
}

#[test]
fn request_for_the_status() {
    let mut api = Api::new();
    assert_eq!(
        api.handle_request(Request::Get(GetType::MediaStatus)),
        reply("{\"playbackState\":\"Inactive\"}")
    );
    api.caster.refresh_status(Some(MediaStatus::Active(StatusEntry {
        media_session_id: 1,
        player_state: PlayerState::Playing,
        current_time_ms: Some(2250),
        duration_ms: Some(10_000),
    })));
    assert_eq!(
        api.handle_request(Request::Get(GetType::MediaStatus)),
        reply("{\"playbackState\":\"PLAYING\",\"currentTime\":2.250,\"videoLength\":10.000}")
    );
}

#[test]
fn request_for_the_devices() {
    let mut api = Api::new();
    assert_eq!(api.handle_request(Request::Get(GetType::Chromecasts)), reply("[]"));
    let mut api = with_devices();
    assert_eq!(
        api.handle_request(Request::Get(GetType::Chromecasts)),
        reply("[[\"LivingRoomTV\",\"10.0.0.5\"],[\"Kitchen \\\"Mini\\\"\",\"fe80::9\"]]")
    );
    assert_eq!(
        api.chromecast_listing(),
        vec![
            ("LivingRoomTV".to_string(), "10.0.0.5".to_string()),
            ("Kitchen \"Mini\"".to_string(), "fe80::9".to_string()),
        ]
    );
}

#[test]
fn signals_without_a_device_say_so() {
    let mut api = Api::new();
    for signal in [CastSignal::Stop, CastSignal::Pause, CastSignal::Play, CastSignal::Seek(5)] {
        assert_eq!(
            api.handle_request(Request::Put(PutType::Control(signal))),
            reply("No device address selected.")
        );
    }
}

#[test]
fn signals_to_a_session_that_does_not_stream_say_so() {
    let mut api = with_devices();
    api.select_chromecast(&tv()).unwrap();
    for signal in [CastSignal::Stop, CastSignal::Pause, CastSignal::Play, CastSignal::Seek(5)] {
        assert_eq!(
            api.handle_request(Request::Put(PutType::Control(signal))),
            reply("Cannot change media state. No active media.")
        );
    }
    assert_eq!(api.caster.phase(), SessionPhase::Idle);
}

#[test]
fn signals_are_run_while_streaming_and_answered_with_the_result() {
    let cases = [
        (CastSignal::Stop, PlayerSignal::Stop),
        (CastSignal::Pause, PlayerSignal::Pause),
        (CastSignal::Play, PlayerSignal::Play),
        (CastSignal::Seek(7000), PlayerSignal::Seek(7000)),
    ];
    for (signal, wanted) in cases {
        let mut api = streaming();
        match api.handle_request(Request::Put(PutType::Control(signal))) {
            Directive::Run(mut run) => {
                run.step(DispatchEvent::Connected);
                run.step(DispatchEvent::ReceiverStatus(vec![RunningApp {
                    transport_id: "t".to_string(),
                }]));
                run.step(DispatchEvent::Joined);
                let entry = StatusEntry {
                    media_session_id: 5,
                    player_state: PlayerState::Playing,
                    current_time_ms: None,
                    duration_ms: None,
                };
                assert_eq!(
                    run.step(DispatchEvent::MediaStatus(vec![entry])),
                    DispatchAction::Send(WireCommand {
                        signal: wanted,
                        transport_id: "t".to_string(),
                        media_session_id: 5,
                    })
                );
                run.step(DispatchEvent::Sent);
                match run.step(DispatchEvent::Disconnected) {
                    DispatchAction::Finish(outcome) => {
                        assert_eq!(reply_to_outcome(&outcome), "Success.")
                    }
                    other => panic!("{:?}", other),
                }
            }
            other => panic!("{:?}", other),
        }
    }
}

#[test]
fn a_command_that_finds_no_media_is_answered_with_the_reason() {
    let mut api = streaming();
    match api.handle_request(Request::Put(PutType::Control(CastSignal::Pause))) {
        Directive::Run(mut run) => {
            run.step(DispatchEvent::Connected);
            run.step(DispatchEvent::ReceiverStatus(vec![RunningApp {
                transport_id: "t".to_string(),
            }]));
            run.step(DispatchEvent::Joined);
            run.step(DispatchEvent::MediaStatus(vec![]));
            match run.step(DispatchEvent::Disconnected) {
                DispatchAction::Finish(outcome) => assert_eq!(
                    reply_to_outcome(&outcome),
                    "Cannot change media state. No active media."
                ),
                other => panic!("{:?}", other),
            }
        }
        other => panic!("{:?}", other),
    }
}

#[test]
fn replies_to_outcomes() {
    assert_eq!(reply_to_outcome(&Ok(())), "Success.");
    assert_eq!(
        reply_to_outcome(&Err(CastError::NoActiveMedia)),
        "Cannot change media state. No active media."
    );
    assert_eq!(
        reply_to_outcome(&Err(CastError::TransportError("connection reset".to_string()))),
        "connection reset"
    );
    assert_eq!(reply_to_outcome(&Err(CastError::NoDeviceSelected)), "No device address selected.");
}

#[test]
fn begin_signal_is_not_supported() {
    let mut api = Api::new();
    assert_eq!(
        api.handle_request(Request::Put(PutType::Control(CastSignal::Begin(3)))),
        reply("Not yet supported.")
    );
    let mut api = streaming();
    assert_eq!(
        api.handle_request(Request::Put(PutType::Control(CastSignal::Begin(0)))),
        reply("Not yet supported.")
    );
    assert_eq!(api.caster.phase(), SessionPhase::Streaming);
}

#[test]
fn polls_for_a_reply() {
    assert_eq!(await_api_response(ReplyPoll::Ready("ok".to_string())), Some(Ok("ok".to_string())));
    assert_eq!(
        await_api_response(ReplyPoll::Closed),
        Some(Err("Failed to reach API".to_string()))
    );
    assert_eq!(await_api_response(ReplyPoll::Empty), None);
}

#[test]
fn replies_to_results() {
    assert_eq!(reply_to(&Ok(())), "Success.");
    assert_eq!(
        reply_to(&Err(ApiError::CastError(CastError::DeviceNotFound))),
        "Device not found among the discovered devices."
    );
    assert_eq!(reply_to(&Err(ApiError::ApiError("no".to_string()))), "no");
}

#[test]
fn reply_that_lists_devices() {
    assert_eq!(reply_of_listing(Ok("[]".to_string())), "[]");
    let failed = serde_json::from_str::<u8>("not json").map(|_| String::new());
    assert!(failed.is_err());
    assert_eq!(reply_of_listing(failed), "Could not encode the reply.");
}

#[test]
fn listing_escapes_what_json_must_escape() {
    let mut api = Api::new();
    let odd = DiscoveredDevice {
        friendly_name: "back\\slash\nnew line".to_string(),
        address: DeviceAddr::V4 { a: 1, b: 2, c: 3, d: 4 },
    };
    api.discover_chromecasts(Ok(vec![odd])).unwrap();
    assert_eq!(
        api.handle_request(Request::Get(GetType::Chromecasts)),
        reply("[[\"back\\\\slash\\nnew line\",\"1.2.3.4\"]]")
    );
}
