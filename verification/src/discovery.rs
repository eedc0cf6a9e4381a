//! Discovery: which devices a multicast scan found, and under which names.
//!
//! A scan collects the answers to a multicast query for the cast service.
//! Every address record of every answer announces a device, and an address
//! counts once however often it is announced. Every address is then asked for
//! its description document over HTTP, from which the device's friendly name
//! is taken; a device that gives no name is still listed, as `Unknown`.

use vstd::prelude::*;
use vstd::string::StringExecFns;
use vstd::utf8::{decode_utf8, encode_utf8, encode_utf8_decode_utf8, valid_utf8};
use crate::address::DeviceAddr;
use crate::error::{error_of_failure, CastError, CastErrorView, DeviceFailure};

verus! {

/// The service that cast devices announce themselves under.
pub const SERVICE_NAME: &'static str = "_googlecast._tcp.local";

/// How long a scan listens, in seconds.
pub const TIMEOUT_SECONDS: u64 = 3;

/// What a DNS record of an answer holds, as far as discovery reads it.
#[derive(Clone, Copy, Debug, PartialEq, Eq, Structural)]
pub enum RecordKind {
    /// An IPv4 address, by its octets.
    A(u8, u8, u8, u8),
    /// An IPv6 address, by its segments.
    AAAA(u16, u16, u16, u16, u16, u16, u16, u16),
    /// Any other record.
    Other,
}

/// The address that a record carries, if it is an address record.
pub open spec fn addr_of_record(kind: RecordKind) -> Option<DeviceAddr> {
    match kind {
        RecordKind::A(a, b, c, d) => Some(DeviceAddr::V4 { a, b, c, d }),
        RecordKind::AAAA(s0, s1, s2, s3, s4, s5, s6, s7) => Some(
            DeviceAddr::V6 { s0, s1, s2, s3, s4, s5, s6, s7 },
        ),
        RecordKind::Other => None,
    }
}

/// `found` with `addr` at its end, unless there is no address or `found`
/// holds it already.
pub open spec fn push_unique(found: Seq<DeviceAddr>, addr: Option<DeviceAddr>) -> Seq<
    DeviceAddr,
> {
    match addr {
        Some(a) => if found.contains(a) {
            found
        } else {
            found.push(a)
        },
        None => found,
    }
}

/// `found` after the records of one answer arrived: every address record, in
/// the order of the records, adds its address unless it is there already.
pub open spec fn add_answer(found: Seq<DeviceAddr>, records: Seq<RecordKind>) -> Seq<DeviceAddr>
    decreases records.len(),
{
    if records.len() == 0 {
        found
    } else {
        push_unique(add_answer(found, records.drop_last()), addr_of_record(records.last()))
    }
}

/// The addresses that a scan's answers announce, each once, in the order in
/// which they were first seen.
pub open spec fn unique_addrs(answers: Seq<Seq<RecordKind>>) -> Seq<DeviceAddr>
    decreases answers.len(),
{
    if answers.len() == 0 {
        Seq::empty()
    } else {
        add_answer(unique_addrs(answers.drop_last()), answers.last())
    }
}

/// Whether some record of some answer carries the address `a`.
pub open spec fn announced(answers: Seq<Seq<RecordKind>>, a: DeviceAddr) -> bool {
    exists|i: int, j: int|
        0 <= i < answers.len() && 0 <= j < answers[i].len() && addr_of_record(
            #[trigger] answers[i][j],
        ) == Some(a)
}

/// Whether some of `records` carries the address `a`.
pub open spec fn carried(records: Seq<RecordKind>, a: DeviceAddr) -> bool {
    exists|j: int| 0 <= j < records.len() && addr_of_record(#[trigger] records[j]) == Some(a)
}

/// The records of each answer.
pub open spec fn records_of(answers: Seq<Vec<RecordKind>>) -> Seq<Seq<RecordKind>> {
    answers.map_values(|records: Vec<RecordKind>| records@)
}

/// The address that a record carries, if it is an address record.
pub fn to_ip_addr(record: &RecordKind) -> (addr: Option<DeviceAddr>)
    ensures
        addr == addr_of_record(*record),
{
    match *record {
        RecordKind::A(a, b, c, d) => Some(DeviceAddr::V4 { a, b, c, d }),
        RecordKind::AAAA(s0, s1, s2, s3, s4, s5, s6, s7) => Some(
            DeviceAddr::V6 { s0, s1, s2, s3, s4, s5, s6, s7 },
        ),
        RecordKind::Other => None,
    }
}

/// Whether `found` holds `addr`.
pub fn contains_addr(found: &Vec<DeviceAddr>, addr: DeviceAddr) -> (b: bool)
    ensures
        b == found@.contains(addr),
{
    let mut i: usize = 0;
    while i < found.len()
        invariant
            i <= found.len(),
            forall|j: int| 0 <= j < i ==> found@[j] != addr,
        decreases found.len() - i,
    {
        if found[i] == addr {
            return true;
        }
        i = i + 1;
    }
    false
}

/// Takes in the records of one answer: every address record adds its address
/// to `found` unless it is there already.
pub fn add_addresses(found: &mut Vec<DeviceAddr>, records: &Vec<RecordKind>)
    ensures
        final(found)@ == add_answer(old(found)@, records@),
{
    let mut j: usize = 0;
    while j < records.len()
        invariant
            j <= records.len(),
            found@ == add_answer(old(found)@, records@.take(j as int)),
        decreases records.len() - j,
    {
        assert(records@.take(j as int + 1).drop_last() =~= records@.take(j as int));
        match to_ip_addr(&records[j]) {
            Some(addr) => {
                if !contains_addr(found, addr) {
                    found.push(addr);
                }
            },
            None => {},
        }
        j = j + 1;
    }
    assert(records@.take(j as int) =~= records@);
}

/// The addresses that a scan's answers announce, each once, in the order in
/// which they were first seen.
pub fn unique_addresses(answers: &Vec<Vec<RecordKind>>) -> (found: Vec<DeviceAddr>)
    ensures
        found@ == unique_addrs(records_of(answers@)),
        found@.no_duplicates(),
{
    let mut found: Vec<DeviceAddr> = Vec::new();
    let mut i: usize = 0;
    let ghost all = records_of(answers@);
    while i < answers.len()
        invariant
            i <= answers.len(),
            all == records_of(answers@),
            found@ == unique_addrs(all.take(i as int)),
        decreases answers.len() - i,
    {
        assert(all.take(i as int + 1).drop_last() =~= all.take(i as int));
        add_addresses(&mut found, &answers[i]);
        i = i + 1;
    }
    assert(all.take(i as int) =~= all);
    proof {
        lemma_unique_addrs(all);
    }
    found
}

/// Taking in an answer keeps a list free of duplicates, keeps what it held in
/// its place, and adds exactly the addresses that the answer's records carry.
pub proof fn lemma_add_answer(found: Seq<DeviceAddr>, records: Seq<RecordKind>)
    requires
        found.no_duplicates(),
    ensures
        add_answer(found, records).no_duplicates(),
        found.len() <= add_answer(found, records).len(),
        add_answer(found, records).take(found.len() as int) == found,
        forall|a: DeviceAddr| #[trigger]
            add_answer(found, records).contains(a) <==> found.contains(a) || carried(records, a),
    decreases records.len(),
{
    let all = add_answer(found, records);
    if records.len() == 0 {
        assert(all.take(found.len() as int) =~= found);
    } else {
        let before = records.drop_last();
        let prev = add_answer(found, before);
        lemma_add_answer(found, before);
        assert(all.take(found.len() as int) =~= prev.take(found.len() as int));
        assert forall|a: DeviceAddr| #[trigger]
            all.contains(a) <==> found.contains(a) || carried(records, a) by {
            if carried(before, a) {
                let j = choose|j: int|
                    0 <= j < before.len() && addr_of_record(#[trigger] before[j]) == Some(a);
                assert(addr_of_record(records[j]) == Some(a));
            }
            if carried(records, a) {
                let j = choose|j: int|
                    0 <= j < records.len() && addr_of_record(#[trigger] records[j]) == Some(a);
                if j < records.len() - 1 {
                    assert(addr_of_record(before[j]) == Some(a));
                }
            }
            if prev.contains(a) {
                let k = choose|k: int| 0 <= k < prev.len() && prev[k] == a;
                assert(all[k] == a);
            }
            if all.contains(a) && !prev.contains(a) {
                assert(addr_of_record(records[records.len() - 1]) == Some(a));
            }
            if addr_of_record(records.last()) == Some(a) && !prev.contains(a) {
                assert(all[prev.len() as int] == a);
            }
        }
    }
}

/// A scan never lists an address twice, lists nothing that no record
/// announced, and lists every address that some record of some answer
/// announced.
pub proof fn lemma_unique_addrs(answers: Seq<Seq<RecordKind>>)
    ensures
        unique_addrs(answers).no_duplicates(),
        forall|a: DeviceAddr| #[trigger]
            unique_addrs(answers).contains(a) <==> announced(answers, a),
    decreases answers.len(),
{
    if answers.len() > 0 {
        let all = unique_addrs(answers);
        let before = answers.drop_last();
        let prev = unique_addrs(before);
        lemma_unique_addrs(before);
        lemma_add_answer(prev, answers.last());
        assert forall|a: DeviceAddr| #[trigger] all.contains(a) <==> announced(answers, a) by {
            if announced(before, a) {
                let (i, j) = choose|i: int, j: int|
                    0 <= i < before.len() && 0 <= j < before[i].len() && addr_of_record(
                        #[trigger] before[i][j],
                    ) == Some(a);
                assert(addr_of_record(answers[i][j]) == Some(a));
            }
            if carried(answers.last(), a) {
                let j = choose|j: int|
                    0 <= j < answers.last().len() && addr_of_record(
                        #[trigger] answers.last()[j],
                    ) == Some(a);
                assert(addr_of_record(answers[answers.len() - 1][j]) == Some(a));
            }
            if announced(answers, a) {
                let (i, j) = choose|i: int, j: int|
                    0 <= i < answers.len() && 0 <= j < answers[i].len() && addr_of_record(
                        #[trigger] answers[i][j],
                    ) == Some(a);
                if i < answers.len() - 1 {
                    assert(addr_of_record(before[i][j]) == Some(a));
                } else {
                    assert(addr_of_record(answers.last()[j]) == Some(a));
                }
            }
        }
    }
}

/// The outcome of asking one device for its description document.
#[derive(Debug, PartialEq, Eq)]
pub enum ProbeOutcome {
    /// No response came: the device refused the connection, or the request
    /// could not be made.
    Failed,
    /// The device answered with this HTTP status and, if it sent any, these
    /// bytes of body.
    Answered { status: u16, body: Option<Vec<u8>> },
}

/// The name of a device that told none.
pub open spec fn unknown_name() -> Seq<char> {
    "Unknown"@
}

/// The pattern that finds the friendly name in a description document: what
/// stands between the opening and the closing tag is its first group.
pub open spec fn name_pattern() -> Seq<char> {
    "<friendlyName>(.*)</friendlyName>"@
}

/// What the first capture group holds in the leftmost match of the regular
/// expression `pattern` in `haystack`; `None` where `pattern` is no valid
/// expression, where nothing matches, and where the match leaves the group
/// out.
pub uninterp spec fn first_group_match(pattern: Seq<char>, haystack: Seq<char>) -> Option<
    Seq<char>,
>;

/// The characters of an optional string.
pub open spec fn text_of(s: Option<String>) -> Option<Seq<char>> {
    match s {
        Some(text) => Some(text@),
        None => None,
    }
}

/// Searches `haystack` with the regular expression `pattern`.
///
/// Compiles the pattern with `regex::Regex::new`, searches with
/// `regex::Regex::captures` and takes the text of group 1 with
/// `regex::Captures::get` and `regex::Match::as_str`. The result is what
/// [`first_group_match`] names; nothing more is claimed of it.
#[verifier::external_body]
fn capture_first_group(pattern: &str, haystack: &str) -> (found: Option<String>)
    ensures
        text_of(found) == first_group_match(pattern@, haystack@),
{
    let expression = regex::Regex::new(pattern).ok()?;
    let captures = expression.captures(haystack)?;
    Some(captures.get(1)?.as_str().to_string())
}

/// Decodes bytes as UTF-8.
///
/// Calls `String::from_utf8`, which succeeds exactly on valid UTF-8 and then
/// yields a string that consists of the very bytes it was given.
#[verifier::external_body]
fn utf8_text(bytes: &Vec<u8>) -> (decoded: Option<String>)
    ensures
        decoded is Some <==> valid_utf8(bytes@),
        decoded matches Some(text) ==> encode_utf8(text@) == bytes@,
{
    String::from_utf8(bytes.clone()).ok()
}

/// Whether an HTTP status reports success.
pub open spec fn is_success(status: u16) -> bool {
    200 <= status < 300
}

/// The name that a search of a description document yields: the captured
/// text, or `Unknown` where the search found none.
pub open spec fn name_of_capture(capture: Option<Seq<char>>) -> Seq<char> {
    match capture {
        Some(name) => name,
        None => unknown_name(),
    }
}

/// The name that a probe's outcome gives a device.
///
/// It is what the description document holds between its `friendlyName` tags,
/// where the device answered with success and a body of valid UTF-8 that has
/// such tags; else it is `Unknown`.
pub open spec fn resolved_name(outcome: ProbeOutcome) -> Seq<char> {
    match outcome {
        ProbeOutcome::Answered { status, body: Some(bytes) } => if is_success(status)
            && valid_utf8(bytes@) {
            name_of_capture(first_group_match(name_pattern(), decode_utf8(bytes@)))
        } else {
            unknown_name()
        },
        _ => unknown_name(),
    }
}

/// The name that a search of a description document yields.
pub fn friendly_name(capture: Option<String>) -> (name: String)
    ensures
        name@ == name_of_capture(text_of(capture)),
{
    match capture {
        Some(name) => name,
        None => String::from_str("Unknown"),
    }
}

/// The name that a probe's outcome gives a device. A probe that failed in any
/// way is no error: the device is called `Unknown`.
pub fn resolve_name(outcome: &ProbeOutcome) -> (name: String)
    ensures
        name@ == resolved_name(*outcome),
{
    match outcome {
        ProbeOutcome::Answered { status, body: Some(bytes) } => {
            if 200 <= *status && *status < 300 {
                match utf8_text(bytes) {
                    Some(document) => {
                        proof {
                            encode_utf8_decode_utf8(document@);
                        }
                        friendly_name(
                            capture_first_group(
                                "<friendlyName>(.*)</friendlyName>",
                                document.as_str(),
                            ),
                        )
                    },
                    None => String::from_str("Unknown"),
                }
            } else {
                String::from_str("Unknown")
            }
        },
        _ => String::from_str("Unknown"),
    }
}

/// The URL of a device's description document.
pub open spec fn probe_url_text(addr: DeviceAddr) -> Seq<char> {
    "http://"@ + addr.text() + ":8008/ssdp/device-desc.xml"@
}

/// The URL of a device's description document.
pub fn probe_url(addr: &DeviceAddr) -> (url: String)
    ensures
        url@ == probe_url_text(*addr),
{
    let mut url = String::from_str("http://");
    let host = addr.to_text();
    url.append(host.as_str());
    url.append(":8008/ssdp/device-desc.xml");
    url
}

/// Whether a scan that has listened for `elapsed_ms` milliseconds goes on.
pub fn scan_window_open(elapsed_ms: u64) -> (open: bool)
    ensures
        open == (elapsed_ms < TIMEOUT_SECONDS * 1000),
{
    elapsed_ms < TIMEOUT_SECONDS * 1000
}

/// A device that discovery found.
#[derive(Debug, PartialEq, Eq)]
pub struct DiscoveredDevice {
    pub friendly_name: String,
    pub address: DeviceAddr,
}

/// The mathematical content of a [`DiscoveredDevice`].
pub struct DeviceView {
    pub friendly_name: Seq<char>,
    pub address: DeviceAddr,
}

impl View for DiscoveredDevice {
    type V = DeviceView;

    open spec fn view(&self) -> DeviceView {
        DeviceView { friendly_name: self.friendly_name@, address: self.address }
    }
}

impl Clone for DiscoveredDevice {
    fn clone(&self) -> (copy: DiscoveredDevice)
        ensures
            copy == *self,
    {
        DiscoveredDevice { friendly_name: self.friendly_name.clone(), address: self.address }
    }
}

/// The content of each device of a list.
pub open spec fn devices_view(devices: Seq<DiscoveredDevice>) -> Seq<DeviceView> {
    devices.map_values(|device: DiscoveredDevice| device@)
}

/// The addresses of a list of devices.
pub open spec fn addresses_of(devices: Seq<DeviceView>) -> Seq<DeviceAddr> {
    devices.map_values(|device: DeviceView| device.address)
}

/// The name of the `i`-th address of a scan: what its probe gave, or
/// `Unknown` where it was not probed.
pub open spec fn probed_name(probes: Seq<ProbeOutcome>, i: int) -> Seq<char> {
    if 0 <= i < probes.len() {
        resolved_name(probes[i])
    } else {
        unknown_name()
    }
}

/// The devices of a scan: its addresses in the order in which they were first
/// seen, the `i`-th under the name that the `i`-th probe gave.
pub open spec fn discovered(answers: Seq<Seq<RecordKind>>, probes: Seq<ProbeOutcome>) -> Seq<
    DeviceView,
> {
    let addrs = unique_addrs(answers);
    Seq::new(
        addrs.len(),
        |i: int| DeviceView { friendly_name: probed_name(probes, i), address: addrs[i] },
    )
}

/// What discovery returns for a scan and the probes of its addresses.
///
/// `scan` holds the answers to the multicast query, or the failure of the
/// multicast layer. `probes` holds, for each address of
/// [`unique_addresses`] in order, the outcome of fetching [`probe_url`].
pub open spec fn discovery_result(
    scan: Result<Vec<Vec<RecordKind>>, DeviceFailure>,
    probes: Seq<ProbeOutcome>,
) -> Result<Seq<DeviceView>, CastErrorView> {
    match scan {
        Ok(answers) => Ok(discovered(records_of(answers@), probes)),
        Err(failure) => Err(error_of_failure(failure@)),
    }
}

/// Lists the devices that a scan found.
///
/// A failure of the multicast layer is the only error. No answer at all gives
/// an empty list. No address is listed twice.
pub fn find_chromecasts(
    scan: &Result<Vec<Vec<RecordKind>>, DeviceFailure>,
    probes: &Vec<ProbeOutcome>,
) -> (found: Result<Vec<DiscoveredDevice>, CastError>)
    ensures
        match found {
            Ok(devices) => discovery_result(*scan, probes@) == Ok::<
                Seq<DeviceView>,
                CastErrorView,
            >(devices_view(devices@)),
            Err(error) => discovery_result(*scan, probes@) == Err::<
                Seq<DeviceView>,
                CastErrorView,
            >(error@),
        },
        found matches Ok(devices) ==> addresses_of(devices_view(devices@)).no_duplicates(),
{
    match scan {
        Err(failure) => Err(CastError::from_failure(failure)),
        Ok(answers) => {
            let addrs = unique_addresses(answers);
            let mut devices: Vec<DiscoveredDevice> = Vec::new();
            let mut i: usize = 0;
            let ghost want = discovered(records_of(answers@), probes@);
            while i < addrs.len()
                invariant
                    i <= addrs.len(),
                    addrs@ == unique_addrs(records_of(answers@)),
                    want == discovered(records_of(answers@), probes@),
                    devices@.len() == i,
                    forall|j: int| 0 <= j < i ==> (#[trigger] devices@[j])@ == want[j],
                decreases addrs.len() - i,
            {
                let name = if i < probes.len() {
                    resolve_name(&probes[i])
                } else {
                    String::from_str("Unknown")
                };
                devices.push(DiscoveredDevice { friendly_name: name, address: addrs[i] });
                i = i + 1;
            }
            assert(devices_view(devices@) =~= want);
            Ok(devices)
        },
    }
}

/// Discovery lists each announced address once, in the order in which the
/// addresses were first seen, however often and in whatever answers they
/// were announced.
pub proof fn discovery_lists_each_address_once(
    answers: Seq<Seq<RecordKind>>,
    probes: Seq<ProbeOutcome>,
)
    ensures
        addresses_of(discovered(answers, probes)) == unique_addrs(answers),
        addresses_of(discovered(answers, probes)).no_duplicates(),
{
    lemma_unique_addrs(answers);
}

/// An answer adds nothing to a list that holds every address its records
/// carry.
proof fn lemma_known_answer(found: Seq<DeviceAddr>, records: Seq<RecordKind>)
    requires
        forall|j: int|
            0 <= j < records.len() ==> (addr_of_record(#[trigger] records[j]) matches Some(a)
                ==> found.contains(a)),
    ensures
        add_answer(found, records) == found,
    decreases records.len(),
{
    if records.len() > 0 {
        let before = records.drop_last();
        assert forall|j: int| 0 <= j < before.len() implies (addr_of_record(
            #[trigger] before[j],
        ) matches Some(a) ==> found.contains(a)) by {
            assert(before[j] == records[j]);
        }
        lemma_known_answer(found, before);
        assert(records.last() == records[records.len() - 1]);
    }
}

/// An answer whose addresses were all announced before adds nothing to what
/// discovery lists, however many records it repeats them in.
pub proof fn repeated_announcement_adds_nothing(
    answers: Seq<Seq<RecordKind>>,
    again: Seq<RecordKind>,
    probes: Seq<ProbeOutcome>,
)
    requires
        forall|j: int|
            0 <= j < again.len() ==> (addr_of_record(#[trigger] again[j]) matches Some(a)
                ==> announced(answers, a)),
    ensures
        discovered(answers.push(again), probes) == discovered(answers, probes),
{
    lemma_unique_addrs(answers);
    assert(answers.push(again).drop_last() =~= answers);
    lemma_known_answer(unique_addrs(answers), again);
}

/// Discovery drops no device: every address that some record of some answer
/// carries is listed, and every listed address was carried by some record.
pub proof fn discovery_is_sound_and_complete(
    answers: Seq<Seq<RecordKind>>,
    probes: Seq<ProbeOutcome>,
    a: DeviceAddr,
)
    ensures
        addresses_of(discovered(answers, probes)).contains(a) <==> announced(answers, a),
{
    lemma_unique_addrs(answers);
    assert(addresses_of(discovered(answers, probes)) =~= unique_addrs(answers));
}

/// A scan that no device answered yields an empty list, and no error.
pub proof fn no_answer_gives_an_empty_list(
    scan: Result<Vec<Vec<RecordKind>>, DeviceFailure>,
    probes: Seq<ProbeOutcome>,
)
    requires
        scan matches Ok(answers) && answers@.len() == 0,
    ensures
        discovery_result(scan, probes) == Ok::<Seq<DeviceView>, CastErrorView>(Seq::empty()),
{
    assert(discovered(records_of(scan->Ok_0@), probes) =~= Seq::empty());
}

/// A device whose probe fails in any way is still listed, under the name
/// `Unknown`.
pub proof fn failed_probe_is_no_error(status: u16)
    ensures
        resolved_name(ProbeOutcome::Failed) == unknown_name(),
        resolved_name(ProbeOutcome::Answered { status, body: None }) == unknown_name(),
        forall|bytes: Vec<u8>|
            !is_success(status) ==> #[trigger] resolved_name(
                ProbeOutcome::Answered { status, body: Some(bytes) },
            ) == unknown_name(),
{
}

} // verus!
