//! Wire-level vocabulary: what clients may ask for and what the server
//! answers or broadcasts. Quantities that travel as decimal fractions on the
//! wire (playback rate, crossfader position and curve) are held here as
//! integers in parts per billion; identifiers that travel as UUIDs are held
//! as their `u128` value; the client's opaque send timestamp is held as the
//! bit pattern of the number it sent, so that it can be echoed unchanged.
use vstd::prelude::*;

verus! {

/// One whole unit (a rate of 1.0, a fader at 1.0) in parts per billion.
pub const PPB_ONE: u64 = 1_000_000_000;

/// Playback rate is clamped to +/-6% of normal speed (parts per billion).
pub const MIN_PLAYBACK_RATE: i64 = 940_000_000;

pub const MAX_PLAYBACK_RATE: i64 = 1_060_000_000;

/// The slack allowed around the playback-rate bounds, so that a slider's
/// steps landing a hair outside the nominal bound are still accepted.
pub const PLAYBACK_RATE_SLACK: i64 = 1;

/// Which deck a message targets. Two fully independent decks (own
/// transport, cue point, loop, settings, own revision counter) share one
/// room; every message that is not deck-agnostic carries one of these.
#[derive(Debug, Clone, Copy, PartialEq, Eq, Structural)]
pub enum DeckId {
    A,
    B,
}

#[derive(Debug, Clone, Copy, PartialEq, Eq, Structural)]
pub enum TransportAction {
    Play,
    Pause,
    /// Resets the playhead to the beginning of the track without changing
    /// whether it is playing or paused.
    Restart,
    /// Jumps the playhead to an arbitrary position without changing whether
    /// it is playing or paused. The target travels in
    /// `ClientMessage::SeekRequest`; this variant only tags the resulting
    /// broadcast.
    Seek,
    /// Changes the canonical playback rate without changing whether it is
    /// playing or paused.
    SetTempo,
    /// Releases a cue-point preview hold: pauses the transport at the deck's
    /// current cue point, which the server alone knows.
    CueRelease,
}

#[derive(Debug, Clone, Copy, PartialEq, Eq, Structural)]
pub struct TransportStateDto {
    pub playing: bool,
    pub anchor_position_us: u64,
    pub anchor_server_time_us: u64,
    /// Parts per billion of normal speed.
    pub playback_rate: u64,
}

#[derive(Debug, Clone, Copy, PartialEq, Eq, Structural)]
pub struct LoopRegionDto {
    pub start_us: u64,
    pub end_us: u64,
    pub active: bool,
}

/// One deck's full state, as sent in `ServerMessage::StateSnapshot`.
#[derive(Debug, Clone, Copy, PartialEq, Eq, Structural)]
pub struct DeckStateDto {
    pub revision: u64,
    pub transport: TransportStateDto,
    pub nudge_enabled: bool,
    pub bass_cut_enabled: bool,
    pub pitch_lock_enabled: bool,
    pub pfl_enabled: bool,
    pub cue_point_us: Option<u64>,
    pub loop_region: Option<LoopRegionDto>,
}

#[derive(Debug, Clone, PartialEq)]
pub enum ClientMessage {
    ClockRequest { request_id: String, client_send_time_ms_bits: u64 },
    TransportRequest { request_id: String, deck: DeckId, action: TransportAction },
    StateRequest { request_id: String },
    /// Toggles a deck's client-side tempo-nudge drift correction, synced
    /// room-wide; shares that deck's revision counter.
    SetNudgeEnabled { request_id: String, deck: DeckId, enabled: bool },
    /// Sets a deck's canonical playback rate (parts per billion).
    SetTempoRequest { request_id: String, deck: DeckId, playback_rate: i64 },
    /// Toggles a deck's room-wide bass-cut effect.
    SetBassCutEnabled { request_id: String, deck: DeckId, enabled: bool },
    /// Toggles whether a deck's tempo changes are pitch-corrected.
    SetPitchLockEnabled { request_id: String, deck: DeckId, enabled: bool },
    /// Toggles whether a deck is in a headphone-role client's local mix.
    SetPflEnabled { request_id: String, deck: DeckId, enabled: bool },
    /// Seeks a deck to an arbitrary position.
    SeekRequest { request_id: String, deck: DeckId, position_us: u64 },
    /// Sets (or overwrites) a deck's single cue point.
    SetCuePoint { request_id: String, deck: DeckId, position_us: u64 },
    /// Clears a deck's cue point; a no-op if it has none.
    RemoveCuePoint { request_id: String, deck: DeckId },
    /// Inserts/overwrites a deck's single loop region, always active.
    SetLoop { request_id: String, deck: DeckId, start_us: u64, end_us: u64 },
    /// Toggles a deck's existing loop's active flag; a no-op if it has none.
    SetLoopActive { request_id: String, deck: DeckId, active: bool },
    /// Removes a deck's loop region entirely; a no-op if it has none.
    RemoveLoop { request_id: String, deck: DeckId },
    /// Sets the room's crossfader position (parts per billion; 0 = fully
    /// deck A, one billion = fully deck B).
    SetCrossfaderPosition { request_id: String, position: i64 },
    /// Sets the room's crossfader curve shape (parts per billion; 0 =
    /// equal-power, one billion = fast cut).
    SetCrossfaderCurve { request_id: String, shape: i64 },
}

#[derive(Debug, Clone, PartialEq)]
pub enum ServerMessage {
    Welcome { connection_id: u128, server_time_us: u64, schedule_lead_time_us: u64 },
    StateSnapshot {
        server_time_us: u64,
        crossfader_revision: u64,
        crossfader_position: u64,
        crossfader_curve_shape: u64,
        deck_a: DeckStateDto,
        deck_b: DeckStateDto,
    },
    ClockResponse {
        request_id: String,
        client_send_time_ms_bits: u64,
        server_receive_time_us: u64,
        server_send_time_us: u64,
    },
    TransportEvent {
        event_id: u128,
        request_id: String,
        origin_connection_id: u128,
        deck: DeckId,
        revision: u64,
        action: TransportAction,
        effective_server_time_us: u64,
        position_us: u64,
        playback_rate: u64,
    },
    NudgeSettingChanged {
        event_id: u128,
        request_id: String,
        origin_connection_id: u128,
        deck: DeckId,
        revision: u64,
        enabled: bool,
    },
    BassCutSettingChanged {
        event_id: u128,
        request_id: String,
        origin_connection_id: u128,
        deck: DeckId,
        revision: u64,
        enabled: bool,
    },
    PitchLockSettingChanged {
        event_id: u128,
        request_id: String,
        origin_connection_id: u128,
        deck: DeckId,
        revision: u64,
        enabled: bool,
    },
    PflSettingChanged {
        event_id: u128,
        request_id: String,
        origin_connection_id: u128,
        deck: DeckId,
        revision: u64,
        enabled: bool,
    },
    /// A deck's cue point was set or overwritten.
    CuePointChanged {
        event_id: u128,
        request_id: String,
        origin_connection_id: u128,
        deck: DeckId,
        revision: u64,
        position_us: u64,
    },
    /// A deck's cue point was cleared.
    CuePointRemoved {
        event_id: u128,
        request_id: String,
        origin_connection_id: u128,
        deck: DeckId,
        revision: u64,
    },
    /// A deck's loop was inserted, overwritten or toggled.
    LoopChanged {
        event_id: u128,
        request_id: String,
        origin_connection_id: u128,
        deck: DeckId,
        revision: u64,
        start_us: u64,
        end_us: u64,
        active: bool,
    },
    /// A deck's loop was removed.
    LoopRemoved {
        event_id: u128,
        request_id: String,
        origin_connection_id: u128,
        deck: DeckId,
        revision: u64,
    },
    /// The crossfader position changed (parts per billion).
    CrossfaderPositionChanged {
        event_id: u128,
        request_id: String,
        origin_connection_id: u128,
        revision: u64,
        position: u64,
    },
    /// The crossfader curve shape changed (parts per billion).
    CrossfaderCurveChanged {
        event_id: u128,
        request_id: String,
        origin_connection_id: u128,
        revision: u64,
        shape: u64,
    },
    Error { request_id: Option<String>, code: String, message: String },
}

/// The characters of `s`, in order.
pub(crate) fn chars_of(s: &str) -> (v: Vec<char>)
    ensures
        v@ == s@,
{
    let mut v: Vec<char> = Vec::new();
    for c in it: s.chars()
        invariant
            v@ == it.seq().take(it.index() as int),
            it.seq() == s@,
    {
        v.push(c);
    }
    v
}

/// A character with the Unicode `White_Space` property, the whitespace that
/// `str::trim` removes: tab through carriage return, space, next line,
/// no-break space, ogham space mark, the spaces from en quad to hair space,
/// line and paragraph separators, narrow no-break space, medium mathematical
/// space and ideographic space.
pub open spec fn is_white_space(c: char) -> bool {
    let u = c as u32;
    ||| 0x9 <= u <= 0xD
    ||| u == 0x20
    ||| u == 0x85
    ||| u == 0xA0
    ||| u == 0x1680
    ||| 0x2000 <= u <= 0x200A
    ||| u == 0x2028
    ||| u == 0x2029
    ||| u == 0x202F
    ||| u == 0x205F
    ||| u == 0x3000
}

/// `s` without its leading whitespace.
pub open spec fn trimmed_start(s: Seq<char>) -> Seq<char>
    decreases s.len(),
{
    if s.len() > 0 && is_white_space(s[0]) {
        trimmed_start(s.drop_first())
    } else {
        s
    }
}

/// `s` without its trailing whitespace.
pub open spec fn trimmed_end(s: Seq<char>) -> Seq<char>
    decreases s.len(),
{
    if s.len() > 0 && is_white_space(s.last()) {
        trimmed_end(s.drop_last())
    } else {
        s
    }
}

/// The text `str::trim` leaves of `s`: `s` without its leading and
/// trailing whitespace.
pub open spec fn trimmed(s: Seq<char>) -> Seq<char> {
    trimmed_end(trimmed_start(s))
}

fn is_white_space_char(c: char) -> (r: bool)
    ensures
        r == is_white_space(c),
{
    let u = c as u32;
    (0x9 <= u && u <= 0xD) || u == 0x20 || u == 0x85 || u == 0xA0 || u == 0x1680 || (0x2000 <= u
        && u <= 0x200A) || u == 0x2028 || u == 0x2029 || u == 0x202F || u == 0x205F || u == 0x3000
}

/// The characters of `s` without its leading and trailing whitespace, as
/// `str::trim` leaves them.
pub(crate) fn trimmed_chars(s: &str) -> (v: Vec<char>)
    ensures
        v@ == trimmed(s@),
{
    let cs = chars_of(s);
    let n = cs.len();
    let mut i: usize = 0;
    assert(cs@.subrange(0, n as int) =~= cs@);
    while i < n && is_white_space_char(cs[i])
        invariant
            i <= n,
            n == cs.len(),
            cs@ == s@,
            trimmed_start(s@) == trimmed_start(cs@.subrange(i as int, n as int)),
        decreases n - i,
    {
        assert(cs@.subrange(i as int, n as int).drop_first() =~= cs@.subrange(i + 1, n as int));
        i = i + 1;
    }
    let ghost rest = cs@.subrange(i as int, n as int);
    assert(trimmed_start(s@) == rest);
    let mut j: usize = n;
    while j > i && is_white_space_char(cs[j - 1])
        invariant
            i <= j <= n,
            n == cs.len(),
            cs@ == s@,
            rest == cs@.subrange(i as int, n as int),
            trimmed_end(rest) == trimmed_end(cs@.subrange(i as int, j as int)),
        decreases j,
    {
        assert(cs@.subrange(i as int, j as int).drop_last() =~= cs@.subrange(i as int, j - 1));
        j = j - 1;
    }
    let mut v: Vec<char> = Vec::new();
    let mut k: usize = i;
    while k < j
        invariant
            i <= k <= j <= n,
            n == cs.len(),
            v@ == cs@.subrange(i as int, k as int),
        decreases j - k,
    {
        v.push(cs[k]);
        assert(v@ =~= cs@.subrange(i as int, k + 1));
        k = k + 1;
    }
    assert(trimmed_end(rest) == v@);
    v
}

pub const EMPTY_REQUEST_ID_MESSAGE: &'static str = "request_id must not be empty";

pub const PLAYBACK_RATE_MESSAGE: &'static str = "playback_rate must be between 0.94 and 1.06";

pub const LOOP_BOUNDS_MESSAGE: &'static str = "end_us must be greater than start_us";

pub const CROSSFADER_POSITION_MESSAGE: &'static str = "position must be between 0.0 and 1.0";

pub const CROSSFADER_CURVE_MESSAGE: &'static str = "shape must be between 0.0 and 1.0";

/// A playback rate (parts per billion) inside the accepted bounds.
pub open spec fn playback_rate_in_bounds(rate: i64) -> bool {
    MIN_PLAYBACK_RATE - PLAYBACK_RATE_SLACK <= rate <= MAX_PLAYBACK_RATE + PLAYBACK_RATE_SLACK
}

/// A crossfader position or curve shape (parts per billion) within 0..=1.
pub open spec fn unit_fraction_in_bounds(value: i64) -> bool {
    0 <= value <= PPB_ONE
}

impl ClientMessage {
    /// The request id every message carries.
    pub open spec fn rid(self) -> String {
        match self {
            ClientMessage::ClockRequest { request_id, .. } => request_id,
            ClientMessage::TransportRequest { request_id, .. } => request_id,
            ClientMessage::StateRequest { request_id } => request_id,
            ClientMessage::SetNudgeEnabled { request_id, .. } => request_id,
            ClientMessage::SetTempoRequest { request_id, .. } => request_id,
            ClientMessage::SetBassCutEnabled { request_id, .. } => request_id,
            ClientMessage::SetPitchLockEnabled { request_id, .. } => request_id,
            ClientMessage::SetPflEnabled { request_id, .. } => request_id,
            ClientMessage::SeekRequest { request_id, .. } => request_id,
            ClientMessage::SetCuePoint { request_id, .. } => request_id,
            ClientMessage::RemoveCuePoint { request_id, .. } => request_id,
            ClientMessage::SetLoop { request_id, .. } => request_id,
            ClientMessage::SetLoopActive { request_id, .. } => request_id,
            ClientMessage::RemoveLoop { request_id, .. } => request_id,
            ClientMessage::SetCrossfaderPosition { request_id, .. } => request_id,
            ClientMessage::SetCrossfaderCurve { request_id, .. } => request_id,
        }
    }

    /// The request id is empty once surrounding whitespace is trimmed.
    pub open spec fn request_id_blank(self) -> bool {
        trimmed(self.rid()@).len() == 0
    }

    /// Why the message is rejected, given whether its request id is blank;
    /// `None` when it is accepted.
    pub open spec fn rejection(self, request_id_blank: bool) -> Option<Seq<char>> {
        if request_id_blank {
            Some(EMPTY_REQUEST_ID_MESSAGE@)
        } else {
            match self {
                ClientMessage::SetTempoRequest { playback_rate, .. } => {
                    if playback_rate_in_bounds(playback_rate) {
                        None
                    } else {
                        Some(PLAYBACK_RATE_MESSAGE@)
                    }
                },
                ClientMessage::SetLoop { start_us, end_us, .. } => {
                    if end_us <= start_us {
                        Some(LOOP_BOUNDS_MESSAGE@)
                    } else {
                        None
                    }
                },
                ClientMessage::SetCrossfaderPosition { position, .. } => {
                    if unit_fraction_in_bounds(position) {
                        None
                    } else {
                        Some(CROSSFADER_POSITION_MESSAGE@)
                    }
                },
                ClientMessage::SetCrossfaderCurve { shape, .. } => {
                    if unit_fraction_in_bounds(shape) {
                        None
                    } else {
                        Some(CROSSFADER_CURVE_MESSAGE@)
                    }
                },
                _ => None,
            }
        }
    }

    pub fn request_id(&self) -> (r: &str)
        ensures
            r@ == self.rid()@,
    {
        match self {
            ClientMessage::ClockRequest { request_id, .. } => request_id.as_str(),
            ClientMessage::TransportRequest { request_id, .. } => request_id.as_str(),
            ClientMessage::StateRequest { request_id } => request_id.as_str(),
            ClientMessage::SetNudgeEnabled { request_id, .. } => request_id.as_str(),
            ClientMessage::SetTempoRequest { request_id, .. } => request_id.as_str(),
            ClientMessage::SetBassCutEnabled { request_id, .. } => request_id.as_str(),
            ClientMessage::SetPitchLockEnabled { request_id, .. } => request_id.as_str(),
            ClientMessage::SetPflEnabled { request_id, .. } => request_id.as_str(),
            ClientMessage::SeekRequest { request_id, .. } => request_id.as_str(),
            ClientMessage::SetCuePoint { request_id, .. } => request_id.as_str(),
            ClientMessage::RemoveCuePoint { request_id, .. } => request_id.as_str(),
            ClientMessage::SetLoop { request_id, .. } => request_id.as_str(),
            ClientMessage::SetLoopActive { request_id, .. } => request_id.as_str(),
            ClientMessage::RemoveLoop { request_id, .. } => request_id.as_str(),
            ClientMessage::SetCrossfaderPosition { request_id, .. } => request_id.as_str(),
            ClientMessage::SetCrossfaderCurve { request_id, .. } => request_id.as_str(),
        }
    }

    /// Whether the request id is empty once surrounding whitespace is trimmed.
    pub fn request_id_is_blank(&self) -> (r: bool)
        ensures
            r == self.request_id_blank(),
            self.rid()@.len() == 0 ==> r,
    {
        trimmed_chars(self.request_id()).len() == 0
    }

    /// Field validation beyond what the types already enforce: a non-blank
    /// request id, a playback rate within bounds, a loop that ends after it
    /// starts, and crossfader values within 0..=1.
    pub fn validate(&self) -> (r: Result<(), String>)
        ensures
            match self.rejection(self.request_id_blank()) {
                None => r is Ok,
                Some(reason) => r matches Err(message) && message@ == reason,
            },
            self.rid()@.len() == 0 ==> (r matches Err(message) && message@
                == EMPTY_REQUEST_ID_MESSAGE@),
    {
        let request_id_blank = self.request_id_is_blank();
        self.validate_given(request_id_blank)
    }

    /// `validate`, with whether the trimmed request id is empty supplied.
    pub fn validate_given(&self, request_id_blank: bool) -> (r: Result<(), String>)
        ensures
            match self.rejection(request_id_blank) {
                None => r is Ok,
                Some(reason) => r matches Err(message) && message@ == reason,
            },
    {
        if request_id_blank {
            return Err(EMPTY_REQUEST_ID_MESSAGE.to_owned());
        }
        match self {
            ClientMessage::SetTempoRequest { playback_rate, .. } => {
                if *playback_rate < MIN_PLAYBACK_RATE - PLAYBACK_RATE_SLACK || *playback_rate
                    > MAX_PLAYBACK_RATE + PLAYBACK_RATE_SLACK {
                    return Err(PLAYBACK_RATE_MESSAGE.to_owned());
                }
            },
            ClientMessage::SetLoop { start_us, end_us, .. } => {
                if *end_us <= *start_us {
                    return Err(LOOP_BOUNDS_MESSAGE.to_owned());
                }
            },
            ClientMessage::SetCrossfaderPosition { position, .. } => {
                if *position < 0 || *position > PPB_ONE as i64 {
                    return Err(CROSSFADER_POSITION_MESSAGE.to_owned());
                }
            },
            ClientMessage::SetCrossfaderCurve { shape, .. } => {
                if *shape < 0 || *shape > PPB_ONE as i64 {
                    return Err(CROSSFADER_CURVE_MESSAGE.to_owned());
                }
            },
            _ => {},
        }
        Ok(())
    }
}

} // verus!
