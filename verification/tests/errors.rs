use mucast::error::{ApiError, CastError, DeviceFailure, FailureClass, FailureSource};

fn failure(source: FailureSource, detail: &str) -> DeviceFailure {
    DeviceFailure { source, detail: detail.to_string() }
}

#[test]
fn link_failures_are_transport_errors() {
    for source in [
        FailureSource::Io,
        FailureSource::Tls,
        FailureSource::Dns,
        FailureSource::Timeout,
        FailureSource::Multicast,
        FailureSource::Http,
    ] {
        assert_eq!(source.class(), FailureClass::Transport);
        assert_eq!(
            CastError::from_failure(&failure(source, "broken pipe")),
            CastError::TransportError("broken pipe".to_string())
        );
    }
}

#[test]
fn bad_answers_are_protocol_errors() {
    for source in [
        FailureSource::Protobuf,
        FailureSource::Serialization,
        FailureSource::Parsing,
        FailureSource::Namespace,
        FailureSource::Internal,
    ] {
        assert_eq!(source.class(), FailureClass::Protocol);
        assert_eq!(
            CastError::from(failure(source, "unknown player state")),
            CastError::ProtocolError("unknown player state".to_string())
        );
    }
}

#[test]
fn every_cast_error_has_its_sentence() {
    assert_eq!(CastError::TransportError("connection refused".to_string()).message(), "connection refused");
    assert_eq!(CastError::ProtocolError("bad frame".to_string()).message(), "bad frame");
    assert_eq!(CastError::NoDeviceSelected.message(), "No device address selected.");
    assert_eq!(
        CastError::DeviceNotFound.message(),
        "Device not found among the discovered devices."
    );
    assert_eq!(CastError::NoActiveMedia.message(), "Cannot change media state. No active media.");
    assert_eq!(CastError::SessionActive.message(), "A cast session is already under way.");
    assert_eq!(CastError::NotSupported.message(), "Not yet supported.");
}

#[test]
fn cast_error_clone_is_equal() {
    let e = CastError::TransportError("x".to_string());
    assert_eq!(e.clone(), e);
    assert_eq!(CastError::NoActiveMedia.clone(), CastError::NoActiveMedia);
}

#[test]
fn api_error_from_string_and_cast_error() {
    assert_eq!(ApiError::from("bad input".to_string()), ApiError::ApiError("bad input".to_string()));
    assert_eq!(
        ApiError::from(CastError::DeviceNotFound),
        ApiError::CastError(CastError::DeviceNotFound)
    );
    assert_eq!(ApiError::ApiError("bad input".to_string()).message(), "bad input");
    assert_eq!(
        ApiError::CastError(CastError::NoActiveMedia).message(),
        "Cannot change media state. No active media."
    );
}
