//! Playback status as the receiver reports it, and its JSON form.

use vstd::prelude::*;
use vstd::string::StringExecFns;
use vstd::std_specs::convert::FromSpecImpl;
use crate::text::{decimal_text, digit_char, digit_str, push_decimal};

verus! {

/// What the player on the receiver is doing.
#[derive(Clone, Copy, Debug, PartialEq, Eq, Structural)]
pub enum PlayerState {
    Idle,
    Playing,
    Buffering,
    Paused,
}

/// One media session on the receiver. Times are in milliseconds.
#[derive(Clone, Copy, Debug, PartialEq, Eq)]
pub struct StatusEntry {
    /// The identifier that playback commands are addressed to.
    pub media_session_id: i32,
    pub player_state: PlayerState,
    /// The playback position, where the receiver told it.
    pub current_time_ms: Option<u64>,
    /// The length of the loaded media, where it is known.
    pub duration_ms: Option<u64>,
}

/// The playback status of a session: nothing loaded, or one media session.
#[derive(Clone, Copy, Debug, PartialEq, Eq)]
pub enum MediaStatus {
    Active(StatusEntry),
    Inactive,
}

impl From<StatusEntry> for MediaStatus {
    fn from(entry: StatusEntry) -> (status: MediaStatus) {
        MediaStatus::Active(entry)
    }
}

impl FromSpecImpl<StatusEntry> for MediaStatus {
    open spec fn obeys_from_spec() -> bool {
        true
    }

    open spec fn from_spec(entry: StatusEntry) -> MediaStatus {
        MediaStatus::Active(entry)
    }
}

/// The status that a list of media sessions stands for: the first session,
/// or `Inactive` where there is none.
pub open spec fn status_of_entries(entries: Seq<StatusEntry>) -> MediaStatus {
    if entries.len() > 0 {
        MediaStatus::Active(entries[0])
    } else {
        MediaStatus::Inactive
    }
}

/// The upper-case name of a player state.
pub open spec fn state_name(state: PlayerState) -> Seq<char> {
    match state {
        PlayerState::Idle => "IDLE"@,
        PlayerState::Playing => "PLAYING"@,
        PlayerState::Buffering => "BUFFERING"@,
        PlayerState::Paused => "PAUSED"@,
    }
}

/// Milliseconds written as seconds with three decimals.
pub open spec fn seconds_text(ms: u64) -> Seq<char> {
    decimal_text((ms / 1000) as nat) + seq![
        '.',
        digit_char((ms % 1000 / 100) as nat),
        digit_char((ms % 100 / 10) as nat),
        digit_char((ms % 10) as nat),
    ]
}

/// The member `,"<key>":<seconds>` of a status object, or nothing where the
/// value is unknown.
pub open spec fn time_member(key: Seq<char>, value: Option<u64>) -> Seq<char> {
    match value {
        Some(ms) => ",\""@ + key + "\":"@ + seconds_text(ms),
        None => Seq::empty(),
    }
}

/// The JSON object that a status is reported as.
///
/// `Inactive` has the member `playbackState` alone. An active session has
/// `playbackState` with the player state's name, then `currentTime` where the
/// position is known, then `videoLength` where the duration is known.
pub open spec fn status_json(status: MediaStatus) -> Seq<char> {
    match status {
        MediaStatus::Inactive => "{\"playbackState\":\"Inactive\"}"@,
        MediaStatus::Active(entry) => "{\"playbackState\":\""@ + state_name(entry.player_state)
            + "\""@ + time_member("currentTime"@, entry.current_time_ms) + time_member(
            "videoLength"@,
            entry.duration_ms,
        ) + "}"@,
    }
}

impl PlayerState {
    /// The upper-case name of the state.
    pub fn name(&self) -> (s: &'static str)
        ensures
            s@ == state_name(*self),
    {
        match self {
            PlayerState::Idle => "IDLE",
            PlayerState::Playing => "PLAYING",
            PlayerState::Buffering => "BUFFERING",
            PlayerState::Paused => "PAUSED",
        }
    }
}

/// Appends milliseconds as seconds with three decimals.
fn push_seconds(out: &mut String, ms: u64)
    ensures
        final(out)@ == old(out)@ + seconds_text(ms),
{
    proof {
        reveal_strlit(".");
    }
    push_decimal(out, ms / 1000);
    out.append(".");
    out.append(digit_str((ms % 1000 / 100) as u8));
    out.append(digit_str((ms % 100 / 10) as u8));
    out.append(digit_str((ms % 10) as u8));
}

/// Appends one optional time member of a status object.
fn push_time_member(out: &mut String, key: &str, value: Option<u64>)
    ensures
        final(out)@ == old(out)@ + time_member(key@, value),
{
    if let Some(ms) = value {
        out.append(",\"");
        out.append(key);
        out.append("\":");
        push_seconds(out, ms);
    }
}

impl MediaStatus {
    /// The status that a list of media sessions stands for.
    pub fn from_entries(entries: &Vec<StatusEntry>) -> (status: MediaStatus)
        ensures
            status == status_of_entries(entries@),
    {
        if entries.len() > 0 {
            MediaStatus::Active(entries[0])
        } else {
            MediaStatus::Inactive
        }
    }

    /// Whether a media session is there.
    pub fn is_active(&self) -> (b: bool)
        ensures
            b == (*self is Active),
    {
        match self {
            MediaStatus::Active(_) => true,
            MediaStatus::Inactive => false,
        }
    }

    /// The status as a JSON object.
    pub fn to_json(&self) -> (s: String)
        ensures
            s@ == status_json(*self),
    {
        match *self {
            MediaStatus::Inactive => String::from_str("{\"playbackState\":\"Inactive\"}"),
            MediaStatus::Active(entry) => {
                let mut out = String::from_str("{\"playbackState\":\"");
                out.append(entry.player_state.name());
                out.append("\"");
                push_time_member(&mut out, "currentTime", entry.current_time_ms);
                push_time_member(&mut out, "videoLength", entry.duration_ms);
                out.append("}");
                out
            },
        }
    }
}

} // verus!
