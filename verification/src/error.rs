//! Failures: what can go wrong outside the library, and the errors that the
//! library's calls return.

use vstd::prelude::*;
use vstd::string::StringExecFns;
use vstd::std_specs::convert::FromSpecImpl;

verus! {

/// Where a failure outside the library came from.
#[derive(Clone, Copy, Debug, PartialEq, Eq, Structural)]
pub enum FailureSource {
    /// Reading from or writing to a socket.
    Io,
    /// The encrypted channel to the device.
    Tls,
    /// The device's host name.
    Dns,
    /// A reply that did not come in time.
    Timeout,
    /// The multicast query.
    Multicast,
    /// The HTTP exchange with a device.
    Http,
    /// The framing of a device message.
    Protobuf,
    /// The JSON of a device message.
    Serialization,
    /// A device message that is well-formed but makes no sense.
    Parsing,
    /// A device message on a channel that nothing handles.
    Namespace,
    /// A fault inside the device library.
    Internal,
}

/// A failure outside the library, with the words it came with.
#[derive(Debug, PartialEq, Eq)]
pub struct DeviceFailure {
    pub source: FailureSource,
    pub detail: String,
}

/// The two classes of failure outside the library.
#[derive(Clone, Copy, Debug, PartialEq, Eq, Structural)]
pub enum FailureClass {
    /// The link to the device, the multicast layer or HTTP failed.
    Transport,
    /// The device answered with something malformed or unexpected.
    Protocol,
}

/// The class that a failure's source falls under.
pub open spec fn class_of(source: FailureSource) -> FailureClass {
    match source {
        FailureSource::Io => FailureClass::Transport,
        FailureSource::Tls => FailureClass::Transport,
        FailureSource::Dns => FailureClass::Transport,
        FailureSource::Timeout => FailureClass::Transport,
        FailureSource::Multicast => FailureClass::Transport,
        FailureSource::Http => FailureClass::Transport,
        FailureSource::Protobuf => FailureClass::Protocol,
        FailureSource::Serialization => FailureClass::Protocol,
        FailureSource::Parsing => FailureClass::Protocol,
        FailureSource::Namespace => FailureClass::Protocol,
        FailureSource::Internal => FailureClass::Protocol,
    }
}

impl FailureSource {
    /// The class that this source falls under.
    pub fn class(&self) -> (c: FailureClass)
        ensures
            c == class_of(*self),
    {
        match self {
            FailureSource::Io => FailureClass::Transport,
            FailureSource::Tls => FailureClass::Transport,
            FailureSource::Dns => FailureClass::Transport,
            FailureSource::Timeout => FailureClass::Transport,
            FailureSource::Multicast => FailureClass::Transport,
            FailureSource::Http => FailureClass::Transport,
            FailureSource::Protobuf => FailureClass::Protocol,
            FailureSource::Serialization => FailureClass::Protocol,
            FailureSource::Parsing => FailureClass::Protocol,
            FailureSource::Namespace => FailureClass::Protocol,
            FailureSource::Internal => FailureClass::Protocol,
        }
    }
}

/// The mathematical content of a [`DeviceFailure`].
pub struct DeviceFailureView {
    pub source: FailureSource,
    pub detail: Seq<char>,
}

impl View for DeviceFailure {
    type V = DeviceFailureView;

    open spec fn view(&self) -> DeviceFailureView {
        DeviceFailureView { source: self.source, detail: self.detail@ }
    }
}

/// Why a call on a cast session failed.
#[derive(Debug, PartialEq, Eq)]
pub enum CastError {
    /// The link to the device, the multicast layer or HTTP failed.
    TransportError(String),
    /// The device answered with something malformed or unexpected.
    ProtocolError(String),
    /// A session was asked to start or a command to run before any device was
    /// selected.
    NoDeviceSelected,
    /// The device is not among those that the last discovery found.
    DeviceNotFound,
    /// The device runs no media session that a command could address.
    NoActiveMedia,
    /// A session was asked to start while one is under way.
    SessionActive,
    /// The request is understood, but nothing carries it out yet.
    NotSupported,
}

/// The mathematical content of a [`CastError`].
pub enum CastErrorView {
    TransportError(Seq<char>),
    ProtocolError(Seq<char>),
    NoDeviceSelected,
    DeviceNotFound,
    NoActiveMedia,
    SessionActive,
    NotSupported,
}

impl View for CastError {
    type V = CastErrorView;

    open spec fn view(&self) -> CastErrorView {
        match self {
            CastError::TransportError(detail) => CastErrorView::TransportError(detail@),
            CastError::ProtocolError(detail) => CastErrorView::ProtocolError(detail@),
            CastError::NoDeviceSelected => CastErrorView::NoDeviceSelected,
            CastError::DeviceNotFound => CastErrorView::DeviceNotFound,
            CastError::NoActiveMedia => CastErrorView::NoActiveMedia,
            CastError::SessionActive => CastErrorView::SessionActive,
            CastError::NotSupported => CastErrorView::NotSupported,
        }
    }
}

/// The error that a failure outside the library is reported as: a transport
/// error or a protocol error by the class of its source, with the failure's
/// own words.
pub open spec fn error_of_failure(failure: DeviceFailureView) -> CastErrorView {
    match class_of(failure.source) {
        FailureClass::Transport => CastErrorView::TransportError(failure.detail),
        FailureClass::Protocol => CastErrorView::ProtocolError(failure.detail),
    }
}

/// The sentence that an error is reported with.
pub open spec fn error_text(error: CastErrorView) -> Seq<char> {
    match error {
        CastErrorView::TransportError(detail) => detail,
        CastErrorView::ProtocolError(detail) => detail,
        CastErrorView::NoDeviceSelected => "No device address selected."@,
        CastErrorView::DeviceNotFound => "Device not found among the discovered devices."@,
        CastErrorView::NoActiveMedia => "Cannot change media state. No active media."@,
        CastErrorView::SessionActive => "A cast session is already under way."@,
        CastErrorView::NotSupported => "Not yet supported."@,
    }
}

impl Clone for CastError {
    fn clone(&self) -> (copy: CastError)
        ensures
            copy == *self,
    {
        match self {
            CastError::TransportError(detail) => CastError::TransportError(detail.clone()),
            CastError::ProtocolError(detail) => CastError::ProtocolError(detail.clone()),
            CastError::NoDeviceSelected => CastError::NoDeviceSelected,
            CastError::DeviceNotFound => CastError::DeviceNotFound,
            CastError::NoActiveMedia => CastError::NoActiveMedia,
            CastError::SessionActive => CastError::SessionActive,
            CastError::NotSupported => CastError::NotSupported,
        }
    }
}

impl From<DeviceFailure> for CastError {
    fn from(failure: DeviceFailure) -> (error: CastError) {
        match failure.source.class() {
            FailureClass::Transport => CastError::TransportError(failure.detail),
            FailureClass::Protocol => CastError::ProtocolError(failure.detail),
        }
    }
}

impl FromSpecImpl<DeviceFailure> for CastError {
    open spec fn obeys_from_spec() -> bool {
        true
    }

    open spec fn from_spec(failure: DeviceFailure) -> CastError {
        match class_of(failure.source) {
            FailureClass::Transport => CastError::TransportError(failure.detail),
            FailureClass::Protocol => CastError::ProtocolError(failure.detail),
        }
    }
}

impl CastError {
    /// The error that a failure outside the library is reported as.
    pub fn from_failure(failure: &DeviceFailure) -> (error: CastError)
        ensures
            error@ == error_of_failure(failure@),
    {
        match failure.source.class() {
            FailureClass::Transport => CastError::TransportError(failure.detail.clone()),
            FailureClass::Protocol => CastError::ProtocolError(failure.detail.clone()),
        }
    }

    /// The sentence that this error is reported with.
    pub fn message(&self) -> (s: String)
        ensures
            s@ == error_text(self@),
    {
        match self {
            CastError::TransportError(detail) => detail.clone(),
            CastError::ProtocolError(detail) => detail.clone(),
            CastError::NoDeviceSelected => String::from_str("No device address selected."),
            CastError::DeviceNotFound => String::from_str(
                "Device not found among the discovered devices.",
            ),
            CastError::NoActiveMedia => String::from_str(
                "Cannot change media state. No active media.",
            ),
            CastError::SessionActive => String::from_str("A cast session is already under way."),
            CastError::NotSupported => String::from_str("Not yet supported."),
        }
    }
}

/// Why a request to the control interface failed.
#[derive(Debug, PartialEq, Eq)]
pub enum ApiError {
    /// The request itself was at fault.
    ApiError(String),
    /// The cast session refused or failed.
    CastError(CastError),
}

/// The mathematical content of an [`ApiError`].
pub enum ApiErrorView {
    ApiError(Seq<char>),
    CastError(CastErrorView),
}

impl View for ApiError {
    type V = ApiErrorView;

    open spec fn view(&self) -> ApiErrorView {
        match self {
            ApiError::ApiError(text) => ApiErrorView::ApiError(text@),
            ApiError::CastError(error) => ApiErrorView::CastError(error@),
        }
    }
}

impl From<String> for ApiError {
    fn from(s: String) -> (error: ApiError) {
        ApiError::ApiError(s)
    }
}

impl FromSpecImpl<String> for ApiError {
    open spec fn obeys_from_spec() -> bool {
        true
    }

    open spec fn from_spec(s: String) -> ApiError {
        ApiError::ApiError(s)
    }
}

impl From<CastError> for ApiError {
    fn from(e: CastError) -> (error: ApiError) {
        ApiError::CastError(e)
    }
}

impl FromSpecImpl<CastError> for ApiError {
    open spec fn obeys_from_spec() -> bool {
        true
    }

    open spec fn from_spec(e: CastError) -> ApiError {
        ApiError::CastError(e)
    }
}

/// The sentence that an API error is reported with.
pub open spec fn api_error_text(error: ApiErrorView) -> Seq<char> {
    match error {
        ApiErrorView::ApiError(text) => text,
        ApiErrorView::CastError(inner) => error_text(inner),
    }
}

impl ApiError {
    /// The sentence that this error is reported with.
    pub fn message(&self) -> (s: String)
        ensures
            s@ == api_error_text(self@),
    {
        match self {
            ApiError::ApiError(text) => text.clone(),
            ApiError::CastError(inner) => inner.message(),
        }
    }
}

} // verus!
