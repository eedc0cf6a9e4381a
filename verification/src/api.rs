//! The control interface: requests from a remote controller and the replies
//! to them.
//!
//! A request either asks for something to be done (`Put`) or for something to
//! be told (`Get`). [`Api::handle_request`] decides what is to be done; the
//! caller performs what the [`Directive`] names. Every request is answered
//! with success or with the reason of the failure: at once where the answer
//! is known, and else from the result of what the caller performed.

use vstd::prelude::*;
use vstd::string::StringExecFns;
use crate::cast::{command_start, fresh_session, Caster, CasterView, SessionPhase};
use crate::address::DeviceAddr;
use crate::command::{fresh_dispatch, outcome_view, Dispatch, DispatchView, Outcome, OutcomeView, PlayerSignal};
use crate::discovery::{addresses_of, devices_view, DeviceView, DiscoveredDevice};
use crate::error::{
    api_error_text,
    error_text,
    ApiError,
    ApiErrorView,
    CastError,
    CastErrorView,
};
use crate::status::status_json;

verus! {

/// What a controller asks to be told.
#[derive(Clone, Copy, Debug, PartialEq, Eq, Structural)]
pub enum GetType {
    /// The playback status of the session.
    MediaStatus,
    /// The devices that the last discovery found.
    Chromecasts,
}

/// A signal of the remote control.
#[derive(Clone, Copy, Debug, PartialEq, Eq)]
pub enum CastSignal {
    /// Start casting the file at this index of the library. Nothing carries
    /// this out yet.
    Begin(u32),
    Stop,
    Pause,
    Play,
    /// Move to this position, in milliseconds from the start.
    Seek(u64),
}

/// What a controller asks to be done.
#[derive(Debug, PartialEq, Eq)]
pub enum PutType {
    /// Pass a signal of the remote control on to the device.
    Control(CastSignal),
    /// Select the discovered device with this address as the target.
    SelectChromecast(String),
    /// Look for devices again.
    DiscoverChromecasts,
}

/// The mathematical content of a [`PutType`].
pub enum PutTypeView {
    Control(CastSignal),
    SelectChromecast(Seq<char>),
    DiscoverChromecasts,
}

impl View for PutType {
    type V = PutTypeView;

    open spec fn view(&self) -> PutTypeView {
        match self {
            PutType::Control(signal) => PutTypeView::Control(*signal),
            PutType::SelectChromecast(addr) => PutTypeView::SelectChromecast(addr@),
            PutType::DiscoverChromecasts => PutTypeView::DiscoverChromecasts,
        }
    }
}

/// A request of a controller.
#[derive(Debug, PartialEq, Eq)]
pub enum Request {
    Put(PutType),
    Get(GetType),
}

/// The mathematical content of a [`Request`].
pub enum RequestView {
    Put(PutTypeView),
    Get(GetType),
}

impl View for Request {
    type V = RequestView;

    open spec fn view(&self) -> RequestView {
        match self {
            Request::Put(put) => RequestView::Put(put@),
            Request::Get(get) => RequestView::Get(*get),
        }
    }
}

/// What the caller does with a request.
#[derive(Debug, PartialEq, Eq)]
pub enum Directive {
    /// Send this reply.
    Reply(String),
    /// Carry the command out by this run, and send the words that
    /// [`reply_to_outcome`] gives for its result.
    Run(Dispatch),
    /// Run a discovery, hand what it found to
    /// [`Api::discover_chromecasts`], and send the words that
    /// [`reply_to`] gives for the result.
    Discover,
}

/// The mathematical content of a [`Directive`].
pub enum DirectiveView {
    Reply(Seq<char>),
    Run(DispatchView),
    Discover,
}

impl View for Directive {
    type V = DirectiveView;

    open spec fn view(&self) -> DirectiveView {
        match self {
            Directive::Reply(reply) => DirectiveView::Reply(reply@),
            Directive::Run(run) => DirectiveView::Run(run@),
            Directive::Discover => DirectiveView::Discover,
        }
    }
}

/// What polling for the reply to a forwarded request found.
#[derive(Debug, PartialEq, Eq)]
pub enum ReplyPoll {
    /// The reply is there.
    Ready(String),
    /// Whoever was to reply has gone without replying.
    Closed,
    /// Nothing yet.
    Empty,
}

/// The reply that says that a request was carried out.
pub open spec fn success_reply() -> Seq<char> {
    "Success."@
}

/// The reply to a selection that names no discovered device.
pub open spec fn not_found_reply() -> Seq<char> {
    "Chromecast not found."@
}

/// The reply where the list of devices could not be written down.
pub open spec fn encoding_failed_reply() -> Seq<char> {
    "Could not encode the reply."@
}

/// What is told of a request that could not be forwarded.
pub open spec fn unreachable_reply() -> Seq<char> {
    "Failed to reach API"@
}

/// The words that a result is replied with: `Success.`, or the reason of the
/// failure.
pub open spec fn reply_text(result: Result<(), ApiErrorView>) -> Seq<char> {
    match result {
        Ok(_) => success_reply(),
        Err(error) => api_error_text(error),
    }
}

/// The words that the result of a command is replied with: `Success.`, or
/// the reason of the failure.
pub open spec fn outcome_text(outcome: OutcomeView) -> Seq<char> {
    match outcome {
        Ok(_) => success_reply(),
        Err(error) => error_text(error),
    }
}

/// The words that the result of a command is replied with.
pub fn reply_to_outcome(outcome: &Outcome) -> (reply: String)
    ensures
        reply@ == outcome_text(outcome_view(*outcome)),
{
    match outcome {
        Ok(_) => String::from_str("Success."),
        Err(error) => error.message(),
    }
}

/// The content of a result of the interface.
pub open spec fn result_view(result: Result<(), ApiError>) -> Result<(), ApiErrorView> {
    match result {
        Ok(_) => Ok(()),
        Err(error) => Err(error@),
    }
}

/// The words that a result is replied with.
pub fn reply_to(result: &Result<(), ApiError>) -> (reply: String)
    ensures
        reply@ == reply_text(result_view(*result)),
{
    match result {
        Ok(_) => String::from_str("Success."),
        Err(error) => error.message(),
    }
}

/// What a poll for a reply settles: the reply, the news that none will come,
/// or nothing yet, so that the caller polls again.
pub open spec fn poll_result(poll: ReplyPoll) -> Option<Result<Seq<char>, Seq<char>>> {
    match poll {
        ReplyPoll::Ready(reply) => Some(Ok(reply@)),
        ReplyPoll::Closed => Some(Err(unreachable_reply())),
        ReplyPoll::Empty => None,
    }
}

/// The content of what a poll settled.
pub open spec fn settled_view(settled: Option<Result<String, String>>) -> Option<
    Result<Seq<char>, Seq<char>>,
> {
    match settled {
        Some(Ok(reply)) => Some(Ok(reply@)),
        Some(Err(reason)) => Some(Err(reason@)),
        None => None,
    }
}

/// Decides what one poll for the reply to a forwarded request means.
pub fn await_api_response(poll: ReplyPoll) -> (settled: Option<Result<String, String>>)
    ensures
        settled_view(settled) == poll_result(poll),
{
    match poll {
        ReplyPoll::Ready(reply) => Some(Ok(reply)),
        ReplyPoll::Closed => Some(Err(String::from_str("Failed to reach API"))),
        ReplyPoll::Empty => None,
    }
}

/// The signal of the player that a signal of the remote control stands for;
/// `Begin` stands for none.
pub open spec fn player_signal(signal: CastSignal) -> Option<PlayerSignal> {
    match signal {
        CastSignal::Begin(_) => None,
        CastSignal::Stop => Some(PlayerSignal::Stop),
        CastSignal::Pause => Some(PlayerSignal::Pause),
        CastSignal::Play => Some(PlayerSignal::Play),
        CastSignal::Seek(position_ms) => Some(PlayerSignal::Seek(position_ms)),
    }
}

/// Names and addresses as pairs of strings.
pub open spec fn listing(devices: Seq<DeviceView>) -> Seq<(Seq<char>, Seq<char>)> {
    devices.map_values(|device: DeviceView| (device.friendly_name, device.address.text()))
}

/// The content of a list of pairs of strings.
pub open spec fn pairs_view(pairs: Seq<(String, String)>) -> Seq<(Seq<char>, Seq<char>)> {
    pairs.map_values(|pair: (String, String)| (pair.0@, pair.1@))
}

/// The JSON text of a list of pairs of strings, each pair an array of two
/// strings; `None` where the list cannot be written as JSON.
pub uninterp spec fn json_of_pairs(pairs: Seq<(Seq<char>, Seq<char>)>) -> Option<Seq<char>>;

/// The error of `serde_json`.
#[verifier::external_type_specification]
#[verifier::external_body]
pub struct ExJsonError(serde_json::Error);

/// The text that an encoding yielded, if it yielded one.
pub open spec fn encoded_text(encoded: Result<String, serde_json::Error>) -> Option<Seq<char>> {
    match encoded {
        Ok(text) => Some(text@),
        Err(_) => None,
    }
}

/// Writes a list of pairs of strings as JSON.
///
/// Calls `serde_json::to_string`. The result is what [`json_of_pairs`]
/// names; nothing more is claimed of it.
#[verifier::external_body]
fn pairs_to_json(pairs: &Vec<(String, String)>) -> (encoded: Result<String, serde_json::Error>)
    ensures
        encoded_text(encoded) == json_of_pairs(pairs_view(pairs@)),
{
    serde_json::to_string(pairs)
}

/// The reply that lists devices, given what the encoding of the list yielded.
pub open spec fn listing_reply(encoded: Option<Seq<char>>) -> Seq<char> {
    match encoded {
        Some(text) => text,
        None => encoding_failed_reply(),
    }
}

/// The reply that lists devices, given what the encoding of the list yielded.
pub fn reply_of_listing(encoded: Result<String, serde_json::Error>) -> (reply: String)
    ensures
        reply@ == listing_reply(encoded_text(encoded)),
{
    match encoded {
        Ok(text) => text,
        Err(_) => String::from_str("Could not encode the reply."),
    }
}

/// The first device of `devices` whose address reads `text`.
pub open spec fn first_with_text(devices: Seq<DeviceView>, text: Seq<char>) -> Option<
    DeviceView,
>
    decreases devices.len(),
{
    if devices.len() == 0 {
        None
    } else if devices[0].address.text() == text {
        Some(devices[0])
    } else {
        first_with_text(devices.drop_first(), text)
    }
}

/// The control interface of one cast session.
#[derive(Debug, PartialEq, Eq)]
pub struct Api {
    /// The session that requests act on.
    pub caster: Caster,
    /// The device that was selected last.
    pub current_chromecast: Option<DiscoveredDevice>,
    /// The devices that the last discovery found.
    pub discovered_chromecasts: Vec<DiscoveredDevice>,
}

/// The mathematical content of an [`Api`].
pub struct ApiView {
    pub caster: CasterView,
    pub current: Option<DeviceView>,
    pub discovered: Seq<DeviceView>,
}

impl View for Api {
    type V = ApiView;

    open spec fn view(&self) -> ApiView {
        ApiView {
            caster: self.caster@,
            current: match self.current_chromecast {
                Some(device) => Some(device@),
                None => None,
            },
            discovered: devices_view(self.discovered_chromecasts@),
        }
    }
}

/// The first device of `devices` that has the address `addr`.
pub open spec fn first_with_address(devices: Seq<DeviceView>, addr: DeviceAddr) -> Option<
    DeviceView,
>
    decreases devices.len(),
{
    if devices.len() == 0 {
        None
    } else if devices[0].address == addr {
        Some(devices[0])
    } else {
        first_with_address(devices.drop_first(), addr)
    }
}

/// What selecting the address `addr` does: where the last discovery found a
/// device with this address, the address is the session's target and the
/// discovered device is the current one; else nothing changes and the
/// selection fails with `DeviceNotFound`. The name under which the address is
/// given plays no part.
pub open spec fn select_step(api: ApiView, addr: DeviceAddr) -> (
    ApiView,
    Result<(), ApiErrorView>,
) {
    match first_with_address(api.discovered, addr) {
        Some(entry) => (
            ApiView {
                caster: CasterView { device_addr: Some(addr), ..api.caster },
                current: Some(entry),
                ..api
            },
            Ok(()),
        ),
        None => (api, Err(ApiErrorView::CastError(CastErrorView::DeviceNotFound))),
    }
}

/// What taking in the result of a discovery does: a list replaces the old
/// one; a failure is passed on and the old list stays.
pub open spec fn discovery_step(api: ApiView, found: Result<Seq<DeviceView>, CastErrorView>) -> (
    ApiView,
    Result<(), ApiErrorView>,
) {
    match found {
        Ok(devices) => (ApiView { discovered: devices, ..api }, Ok(())),
        Err(error) => (api, Err(ApiErrorView::CastError(error))),
    }
}

/// What a signal of the remote control leads to.
///
/// `Begin` is answered with the words of `NotSupported`. For every other
/// signal the matching command is run against the session's device, and the
/// reply is made from the result of the run. Where no run can be started the
/// reply is the reason: `NoDeviceSelected` without a device, `NoActiveMedia`
/// while the session does not stream.
pub open spec fn signal_directive(caster: CasterView, signal: CastSignal) -> DirectiveView {
    match player_signal(signal) {
        None => DirectiveView::Reply(error_text(CastErrorView::NotSupported)),
        Some(wanted) => match command_start(caster, wanted) {
            Err(error) => DirectiveView::Reply(error_text(error)),
            Ok(run) => if caster.phase == SessionPhase::Streaming {
                DirectiveView::Run(run)
            } else {
                DirectiveView::Reply(error_text(CastErrorView::NoActiveMedia))
            },
        },
    }
}

/// What a request to be told something is answered with.
///
/// `encoded` is what writing [`listing`] of the discovered devices as JSON
/// yielded.
pub open spec fn get_directive(api: ApiView, get: GetType, encoded: Option<Seq<char>>) -> Seq<
    char,
> {
    match get {
        GetType::MediaStatus => status_json(api.caster.status),
        GetType::Chromecasts => listing_reply(encoded),
    }
}

/// What a request does to the interface, and what the caller is to do.
pub open spec fn request_step(api: ApiView, request: RequestView) -> (ApiView, DirectiveView) {
    match request {
        RequestView::Put(PutTypeView::Control(signal)) => (
            api,
            signal_directive(api.caster, signal),
        ),
        RequestView::Put(PutTypeView::DiscoverChromecasts) => (api, DirectiveView::Discover),
        RequestView::Put(PutTypeView::SelectChromecast(addr)) => match first_with_text(
            api.discovered,
            addr,
        ) {
            Some(device) => (
                select_step(api, device.address).0,
                DirectiveView::Reply(reply_text(select_step(api, device.address).1)),
            ),
            None => (api, DirectiveView::Reply(not_found_reply())),
        },
        RequestView::Get(get) => (
            api,
            DirectiveView::Reply(get_directive(api, get, json_of_pairs(listing(api.discovered)))),
        ),
    }
}

impl Api {
    /// An interface to a new session, with nothing discovered.
    pub fn new() -> (api: Api)
        ensures
            api@ == (ApiView {
                caster: fresh_session(),
                current: None,
                discovered: Seq::empty(),
            }),
    {
        let api = Api {
            caster: Caster::new(),
            current_chromecast: None,
            discovered_chromecasts: Vec::new(),
        };
        assert(api@.discovered =~= Seq::empty());
        api
    }

    /// Takes in what a discovery found.
    pub fn discover_chromecasts(&mut self, found: Result<Vec<DiscoveredDevice>, CastError>) -> (result:
        Result<(), ApiError>)
        ensures
            (final(self)@, result_view(result)) == discovery_step(
                old(self)@,
                match found {
                    Ok(devices) => Ok(devices_view(devices@)),
                    Err(error) => Err(error@),
                },
            ),
    {
        match found {
            Ok(chromecasts) => {
                self.discovered_chromecasts = chromecasts;
                Ok(())
            },
            Err(err) => Err(ApiError::CastError(err)),
        }
    }

    /// The devices that the last discovery found. None of them need be there
    /// any longer.
    pub fn get_discovered_chromecasts(&self) -> (devices: &Vec<DiscoveredDevice>)
        ensures
            devices_view(devices@) == self@.discovered,
    {
        &self.discovered_chromecasts
    }

    /// The first discovered device that has the address `addr`.
    pub fn find_with_address(&self, addr: DeviceAddr) -> (found: Option<DiscoveredDevice>)
        ensures
            match found {
                Some(device) => first_with_address(self@.discovered, addr) == Some(device@),
                None => first_with_address(self@.discovered, addr) is None,
            },
    {
        let mut i: usize = 0;
        let ghost all = self@.discovered;
        assert(all.skip(0) =~= all);
        while i < self.discovered_chromecasts.len()
            invariant
                i <= self.discovered_chromecasts.len(),
                all == self@.discovered,
                first_with_address(all, addr) == first_with_address(all.skip(i as int), addr),
            decreases self.discovered_chromecasts.len() - i,
        {
            assert(all.skip(i as int).drop_first() =~= all.skip(i as int + 1));
            if self.discovered_chromecasts[i].address == addr {
                return Some(self.discovered_chromecasts[i].clone());
            }
            i = i + 1;
        }
        None
    }

    /// Selects the device at the address of `device` as the target of the
    /// session. The address must be one that the last discovery found; the
    /// name that `device` carries is not looked at.
    pub fn select_chromecast(&mut self, device: &DiscoveredDevice) -> (result: Result<
        (),
        ApiError,
    >)
        ensures
            (final(self)@, result_view(result)) == select_step(old(self)@, device@.address),
    {
        match self.find_with_address(device.address) {
            Some(entry) => {
                self.current_chromecast = Some(entry);
                self.caster.set_device_addr(device.address);
                Ok(())
            },
            None => Err(ApiError::CastError(CastError::DeviceNotFound)),
        }
    }

    /// The first discovered device whose address reads `text`.
    pub fn find_by_address(&self, text: &String) -> (found: Option<DiscoveredDevice>)
        ensures
            match found {
                Some(device) => first_with_text(self@.discovered, text@) == Some(device@),
                None => first_with_text(self@.discovered, text@) is None,
            },
    {
        let mut i: usize = 0;
        let ghost all = self@.discovered;
        assert(all.skip(0) =~= all);
        while i < self.discovered_chromecasts.len()
            invariant
                i <= self.discovered_chromecasts.len(),
                all == self@.discovered,
                first_with_text(all, text@) == first_with_text(all.skip(i as int), text@),
            decreases self.discovered_chromecasts.len() - i,
        {
            assert(all.skip(i as int).drop_first() =~= all.skip(i as int + 1));
            let rendered = self.discovered_chromecasts[i].address.to_text();
            if rendered == *text {
                return Some(self.discovered_chromecasts[i].clone());
            }
            i = i + 1;
        }
        None
    }

    /// The discovered devices as pairs of name and address.
    pub fn chromecast_listing(&self) -> (pairs: Vec<(String, String)>)
        ensures
            pairs_view(pairs@) == listing(self@.discovered),
    {
        let mut pairs: Vec<(String, String)> = Vec::new();
        let mut i: usize = 0;
        while i < self.discovered_chromecasts.len()
            invariant
                i <= self.discovered_chromecasts.len(),
                pairs@.len() == i,
                forall|j: int|
                    0 <= j < i ==> (#[trigger] pairs@[j]).0@ == self@.discovered[j].friendly_name
                        && pairs@[j].1@ == self@.discovered[j].address.text(),
            decreases self.discovered_chromecasts.len() - i,
        {
            let device = &self.discovered_chromecasts[i];
            pairs.push((device.friendly_name.clone(), device.address.to_text()));
            i = i + 1;
        }
        pairs
    }

    /// Handles a request: changes what the request changes, and says what the
    /// caller is to reply and to do.
    pub fn handle_request(&mut self, request: Request) -> (directive: Directive)
        ensures
            (final(self)@, directive@) == request_step(old(self)@, request@),
    {
        match request {
            Request::Put(put) => match put {
                PutType::Control(signal) => self.handle_cast_signal(signal),
                PutType::DiscoverChromecasts => Directive::Discover,
                PutType::SelectChromecast(addr) => {
                    match self.find_by_address(&addr) {
                        Some(device) => {
                            let result = self.select_chromecast(&device);
                            Directive::Reply(reply_to(&result))
                        },
                        None => Directive::Reply(String::from_str("Chromecast not found.")),
                    }
                },
            },
            Request::Get(get) => self.handle_get_request(get),
        }
    }

    /// Handles a signal of the remote control.
    fn handle_cast_signal(&self, signal: CastSignal) -> (directive: Directive)
        ensures
            directive@ == signal_directive(self@.caster, signal),
    {
        let wanted = match signal {
            CastSignal::Begin(_) => {
                return Directive::Reply(CastError::NotSupported.message());
            },
            CastSignal::Stop => PlayerSignal::Stop,
            CastSignal::Pause => PlayerSignal::Pause,
            CastSignal::Play => PlayerSignal::Play,
            CastSignal::Seek(position_ms) => PlayerSignal::Seek(position_ms),
        };
        let run = match wanted {
            PlayerSignal::Play => self.caster.resume(),
            PlayerSignal::Pause => self.caster.pause(),
            PlayerSignal::Stop => self.caster.stop(),
            PlayerSignal::Seek(position_ms) => self.caster.seek(position_ms),
        };
        match run {
            Err(error) => Directive::Reply(error.message()),
            Ok(run) => {
                if self.caster.is_streaming() {
                    Directive::Run(run)
                } else {
                    Directive::Reply(CastError::NoActiveMedia.message())
                }
            },
        }
    }

    /// Handles a request to be told something.
    fn handle_get_request(&self, get_type: GetType) -> (directive: Directive)
        ensures
            directive@ == DirectiveView::Reply(
                get_directive(self@, get_type, json_of_pairs(listing(self@.discovered))),
            ),
    {
        match get_type {
            GetType::MediaStatus => Directive::Reply(self.caster.status().to_json()),
            GetType::Chromecasts => {
                let pairs = self.chromecast_listing();
                Directive::Reply(reply_of_listing(pairs_to_json(&pairs)))
            },
        }
    }
}

/// A device with the address `addr` is found exactly where the list holds
/// the address, and what is found is a device of the list with that address.
pub proof fn lemma_first_with_address(devices: Seq<DeviceView>, addr: DeviceAddr)
    ensures
        first_with_address(devices, addr) is Some <==> addresses_of(devices).contains(addr),
        first_with_address(devices, addr) matches Some(entry) ==> entry.address == addr
            && devices.contains(entry),
    decreases devices.len(),
{
    if devices.len() > 0 {
        let rest = devices.drop_first();
        lemma_first_with_address(rest, addr);
        assert(addresses_of(devices)[0] == devices[0].address);
        if addresses_of(rest).contains(addr) {
            let k = choose|k: int| 0 <= k < rest.len() && addresses_of(rest)[k] == addr;
            assert(addresses_of(devices)[k + 1] == addr);
        }
        if addresses_of(devices).contains(addr) && devices[0].address != addr {
            let k = choose|k: int| 0 <= k < devices.len() && addresses_of(devices)[k] == addr;
            assert(addresses_of(rest)[k - 1] == addr);
        }
        if first_with_address(rest, addr) is Some {
            let entry = first_with_address(rest, addr)->0;
            let k = choose|k: int| 0 <= k < rest.len() && rest[k] == entry;
            assert(devices[k + 1] == entry);
        }
    }
}

/// Selecting an address that the last discovery did not find fails with
/// `DeviceNotFound` and changes nothing.
pub proof fn unknown_address_is_not_found(api: ApiView, addr: DeviceAddr)
    requires
        !addresses_of(api.discovered).contains(addr),
    ensures
        select_step(api, addr) == (
            api,
            Err::<(), ApiErrorView>(ApiErrorView::CastError(CastErrorView::DeviceNotFound)),
        ),
{
    lemma_first_with_address(api.discovered, addr);
}

/// Selecting an address that the last discovery found succeeds, under
/// whatever name it is given: the address becomes the session's target and
/// the discovered device with that address the current one, and nothing else
/// changes. The selection succeeds for no other address.
pub proof fn known_address_is_selected(api: ApiView, addr: DeviceAddr)
    ensures
        select_step(api, addr).1 is Ok <==> addresses_of(api.discovered).contains(addr),
        select_step(api, addr).1 is Ok ==> {
            let after = select_step(api, addr).0;
            &&& after.caster == (CasterView { device_addr: Some(addr), ..api.caster })
            &&& after.discovered == api.discovered
            &&& after.current is Some
            &&& after.current->0.address == addr
            &&& api.discovered.contains(after.current->0)
        },
{
    lemma_first_with_address(api.discovered, addr);
}

/// Selecting the same discovered address a second time succeeds again and
/// changes nothing more.
pub proof fn selection_is_idempotent(api: ApiView, addr: DeviceAddr)
    requires
        addresses_of(api.discovered).contains(addr),
    ensures
        select_step(api, addr).1 == Ok::<(), ApiErrorView>(()),
        select_step(select_step(api, addr).0, addr) == select_step(api, addr),
{
    lemma_first_with_address(api.discovered, addr);
}

/// A command is run only for a session that streams to a selected device,
/// and then it is the command that the signal stands for, against that
/// device. Every other signal is answered at once with the reason why no
/// command runs.
pub proof fn signal_runs_or_says_why(caster: CasterView, signal: CastSignal)
    ensures
        signal_directive(caster, signal) is Run <==> player_signal(signal) is Some
            && caster.device_addr is Some && caster.phase == SessionPhase::Streaming,
        signal_directive(caster, signal) is Run ==> signal_directive(caster, signal)
            == DirectiveView::Run(
            fresh_dispatch(player_signal(signal)->0, caster.device_addr->0),
        ),
        !(signal_directive(caster, signal) is Run) ==> signal_directive(caster, signal)
            == DirectiveView::Reply(
            error_text(
                if player_signal(signal) is None {
                    CastErrorView::NotSupported
                } else if caster.device_addr is None {
                    CastErrorView::NoDeviceSelected
                } else {
                    CastErrorView::NoActiveMedia
                },
            ),
        ),
{
}

/// A selection by an address that no discovered device has is answered with
/// `Chromecast not found.` and changes nothing.
pub proof fn selection_by_unknown_text(api: ApiView, text: Seq<char>)
    requires
        forall|i: int|
            0 <= i < api.discovered.len() ==> (#[trigger] api.discovered[i]).address.text()
                != text,
    ensures
        request_step(api, RequestView::Put(PutTypeView::SelectChromecast(text))) == (
            api,
            DirectiveView::Reply(not_found_reply()),
        ),
{
    lemma_first_with_text_none(api.discovered, text);
}

/// No device is found by a text that no device's address reads.
proof fn lemma_first_with_text_none(devices: Seq<DeviceView>, text: Seq<char>)
    requires
        forall|i: int| 0 <= i < devices.len() ==> (#[trigger] devices[i]).address.text() != text,
    ensures
        first_with_text(devices, text) is None,
    decreases devices.len(),
{
    if devices.len() > 0 {
        lemma_first_with_text_none(devices.drop_first(), text);
    }
}

} // verus!
