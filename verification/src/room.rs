//! One deck's authoritative state: its transport timeline, settings, cue
//! point and loop, all sharing one revision counter.
use crate::clock::ServerTimeUs;
use crate::protocol::{LoopRegionDto, TransportAction, TransportStateDto, PPB_ONE};
use uuid::Uuid;
use vstd::prelude::*;

verus! {

/// Microseconds since the anchor, or zero when `now` is not after it.
pub open spec fn elapsed_since(now: u64, anchor: u64) -> int {
    if now >= anchor {
        now - anchor
    } else {
        0
    }
}

/// Track time covered in `elapsed` microseconds at `rate` parts per billion,
/// rounded down and saturated at `u64::MAX`.
pub open spec fn advance_us(elapsed: int, rate: u64) -> int {
    let a = elapsed * rate / (PPB_ONE as int);
    if a > u64::MAX {
        u64::MAX as int
    } else {
        a
    }
}

#[derive(Debug, Clone, Copy, PartialEq, Eq, Structural)]
pub struct TransportState {
    pub playing: bool,
    pub anchor_position_us: u64,
    pub anchor_server_time_us: u64,
    /// Parts per billion of normal speed.
    pub playback_rate: u64,
}

impl TransportState {
    /// The unwrapped track position at `now`, derived from the anchor.
    pub open spec fn raw_position(self, now: u64) -> int {
        if !self.playing {
            self.anchor_position_us as int
        } else {
            self.anchor_position_us + advance_us(
                elapsed_since(now, self.anchor_server_time_us),
                self.playback_rate,
            )
        }
    }

    pub fn initial() -> (t: Self)
        ensures
            t == (TransportState {
                playing: false,
                anchor_position_us: 0,
                anchor_server_time_us: 0,
                playback_rate: PPB_ONE,
            }),
    {
        TransportState {
            playing: false,
            anchor_position_us: 0,
            anchor_server_time_us: 0,
            playback_rate: PPB_ONE,
        }
    }

    /// Derives the track position at `now_us` from the anchor. No running
    /// counter is kept: position is always computed on demand.
    pub fn position_at(&self, now_us: ServerTimeUs) -> (r: u64)
        requires
            self.raw_position(now_us) <= u64::MAX,
        ensures
            r == self.raw_position(now_us),
    {
        if !self.playing {
            return self.anchor_position_us;
        }
        let elapsed_us: u64 = if now_us >= self.anchor_server_time_us {
            now_us - self.anchor_server_time_us
        } else {
            0
        };
        let advanced_us = advance(elapsed_us, self.playback_rate);
        self.anchor_position_us + advanced_us
    }

    pub fn to_dto(&self) -> (d: TransportStateDto)
        ensures
            d == (TransportStateDto {
                playing: self.playing,
                anchor_position_us: self.anchor_position_us,
                anchor_server_time_us: self.anchor_server_time_us,
                playback_rate: self.playback_rate,
            }),
    {
        TransportStateDto {
            playing: self.playing,
            anchor_position_us: self.anchor_position_us,
            anchor_server_time_us: self.anchor_server_time_us,
            playback_rate: self.playback_rate,
        }
    }
}

/// The unwrapped position at `now`, computed wide enough never to overflow.
fn raw_position_wide(t: &TransportState, now_us: u64) -> (r: u128)
    ensures
        r == t.raw_position(now_us),
{
    if !t.playing {
        return t.anchor_position_us as u128;
    }
    let elapsed_us: u64 = if now_us >= t.anchor_server_time_us {
        now_us - t.anchor_server_time_us
    } else {
        0
    };
    t.anchor_position_us as u128 + advance(elapsed_us, t.playback_rate) as u128
}

fn advance(elapsed: u64, rate: u64) -> (r: u64)
    ensures
        r == advance_us(elapsed as int, rate),
{
    assert(elapsed as int * rate as int <= 0xffff_ffff_ffff_ffffint * 0xffff_ffff_ffff_ffffint)
        by (nonlinear_arith)
        requires
            elapsed <= 0xffff_ffff_ffff_ffffu64,
            rate <= 0xffff_ffff_ffff_ffffu64,
    ;
    let product: u128 = (elapsed as u128) * (rate as u128);
    let quotient: u128 = product / (PPB_ONE as u128);
    if quotient > u64::MAX as u128 {
        u64::MAX
    } else {
        quotient as u64
    }
}

/// The outcome of applying a scheduled transport transition, ready to be
/// turned into a canonical `ServerMessage::TransportEvent`.
#[derive(Debug, Clone, Copy, PartialEq, Eq, Structural)]
pub struct TransportEventData {
    pub action: TransportAction,
    pub effective_server_time_us: u64,
    pub position_us: u64,
    /// Parts per billion of normal speed.
    pub playback_rate: u64,
    pub revision: u64,
    /// True when this event reflects an already-applied state rather than a
    /// fresh transition (e.g. a duplicate play request while playing).
    pub idempotent_replay: bool,
}

/// The outcome of toggling a boolean deck setting.
#[derive(Debug, Clone, Copy, PartialEq, Eq, Structural)]
pub struct BoolSettingEventData {
    pub enabled: bool,
    pub revision: u64,
    pub idempotent_replay: bool,
}

/// The outcome of setting/overwriting a deck's single cue point.
#[derive(Debug, Clone, Copy, PartialEq, Eq, Structural)]
pub struct CuePointEventData {
    pub position_us: u64,
    pub revision: u64,
}

/// A deck's single loop region. `active` means "primed to wrap back to
/// `start_us` once playback reaches `end_us`"; an inactive loop still
/// exists but is inert.
#[derive(Debug, Clone, Copy, PartialEq, Eq, Structural)]
pub struct LoopRegion {
    pub start_us: u64,
    pub end_us: u64,
    pub active: bool,
}

/// The outcome of inserting, overwriting or toggling a deck's loop region.
#[derive(Debug, Clone, Copy, PartialEq, Eq, Structural)]
pub struct LoopEventData {
    pub start_us: u64,
    pub end_us: u64,
    pub active: bool,
    pub revision: u64,
}

/// The outcome of clearing a deck's cue point or loop region.
#[derive(Debug, Clone, Copy, PartialEq, Eq, Structural)]
pub struct RemovalEventData {
    pub revision: u64,
}

/// The boolean settings of a deck, all synced room-wide the same way.
#[derive(Debug, Clone, Copy, PartialEq, Eq, Structural)]
pub enum DeckSetting {
    Nudge,
    BassCut,
    PitchLock,
    Pfl,
}

/// One deck's authoritative state.
#[derive(Debug, Clone, Copy, PartialEq, Eq, Structural)]
pub struct RoomState {
    pub transport: TransportState,
    /// Whether clients should apply local tempo-nudge drift correction.
    /// Not part of the transport timeline, but shares its revision counter
    /// so clients can apply both kinds of event in one ordered stream.
    pub nudge_enabled: bool,
    /// Whether clients should apply the bass-cut (highpass) effect.
    pub bass_cut_enabled: bool,
    /// Whether clients should pitch-correct tempo changes.
    pub pitch_lock_enabled: bool,
    /// Whether the deck is in a headphone-role client's local mix.
    pub pfl_enabled: bool,
    /// The deck's single cue point, or `None` if none is set.
    pub cue_point_us: Option<u64>,
    /// The deck's single loop region, or `None` if none exists.
    pub loop_region: Option<LoopRegion>,
    pub revision: u64,
}

/// The deck every room starts with.
pub open spec fn initial_room() -> RoomState {
    RoomState {
        transport: TransportState {
            playing: false,
            anchor_position_us: 0,
            anchor_server_time_us: 0,
            playback_rate: PPB_ONE,
        },
        nudge_enabled: true,
        bass_cut_enabled: false,
        pitch_lock_enabled: true,
        pfl_enabled: false,
        cue_point_us: None,
        loop_region: None,
        revision: 0,
    }
}

impl RoomState {
    /// The position at `now`, wrapped into the active loop's bounds when the
    /// deck's anchor sits at or before the loop's end, so that playback ran
    /// into the end through the loop. Every observer derives the same wrapped
    /// position from the same anchor, rate and loop state. An anchor past the
    /// loop's end (placed there by a seek, restart or cue release) is never
    /// snapped back into the loop.
    pub open spec fn looped_position(self, now: u64) -> int {
        let raw = self.transport.raw_position(now);
        match self.loop_region {
            None => raw,
            Some(l) => {
                if !l.active || l.end_us <= l.start_us || self.transport.anchor_position_us
                    > l.end_us || raw < l.end_us {
                    raw
                } else {
                    l.start_us + (raw - l.start_us) % ((l.end_us - l.start_us) as int)
                }
            },
        }
    }

    /// Where a deck anchored at `position` stands at its anchor time: at
    /// `position` itself, except that the end of an active loop is the point
    /// where the loop starts over, so a deck anchored there stands at the
    /// loop's start.
    pub open spec fn landing_position(self, position: u64) -> int {
        match self.loop_region {
            Some(l) => {
                if l.active && l.start_us < l.end_us && position == l.end_us {
                    l.start_us as int
                } else {
                    position as int
                }
            },
            None => position as int,
        }
    }

    /// Computing the position at `now` does not overflow.
    pub open spec fn position_fits(self, now: u64) -> bool {
        self.transport.raw_position(now) <= u64::MAX
    }

    pub open spec fn setting(self, which: DeckSetting) -> bool {
        match which {
            DeckSetting::Nudge => self.nudge_enabled,
            DeckSetting::BassCut => self.bass_cut_enabled,
            DeckSetting::PitchLock => self.pitch_lock_enabled,
            DeckSetting::Pfl => self.pfl_enabled,
        }
    }

    pub open spec fn with_setting(self, which: DeckSetting, value: bool) -> RoomState {
        match which {
            DeckSetting::Nudge => RoomState { nudge_enabled: value, ..self },
            DeckSetting::BassCut => RoomState { bass_cut_enabled: value, ..self },
            DeckSetting::PitchLock => RoomState { pitch_lock_enabled: value, ..self },
            DeckSetting::Pfl => RoomState { pfl_enabled: value, ..self },
        }
    }

    /// Setting a boolean to its current value changes nothing; otherwise the
    /// value changes and the revision advances by one.
    pub open spec fn after_setting(self, which: DeckSetting, value: bool) -> (RoomState, BoolSettingEventData) {
        if self.setting(which) == value {
            (self, BoolSettingEventData { enabled: value, revision: self.revision, idempotent_replay: true })
        } else {
            let next = RoomState { revision: (self.revision + 1) as u64, ..self.with_setting(which, value) };
            (next, BoolSettingEventData { enabled: value, revision: next.revision, idempotent_replay: false })
        }
    }

    pub open spec fn can_set(self, which: DeckSetting, value: bool) -> bool {
        self.setting(which) == value || self.revision < u64::MAX
    }

    /// This deck with its transport re-anchored and its revision advanced.
    pub open spec fn reanchored(self, playing: bool, position: u64, time: u64, rate: u64) -> RoomState {
        RoomState {
            transport: TransportState {
                playing,
                anchor_position_us: position,
                anchor_server_time_us: time,
                playback_rate: rate,
            },
            revision: (self.revision + 1) as u64,
            ..self
        }
    }

    /// The event that reports a fresh transition to `next`.
    pub open spec fn fresh_event(next: RoomState, action: TransportAction) -> TransportEventData {
        TransportEventData {
            action,
            effective_server_time_us: next.transport.anchor_server_time_us,
            position_us: next.transport.anchor_position_us,
            playback_rate: next.transport.playback_rate,
            revision: next.revision,
            idempotent_replay: false,
        }
    }

    /// The event that reports the current, already-applied state.
    pub open spec fn replay_event(self, action: TransportAction) -> TransportEventData {
        TransportEventData {
            action,
            effective_server_time_us: self.transport.anchor_server_time_us,
            position_us: self.transport.anchor_position_us,
            playback_rate: self.transport.playback_rate,
            revision: self.revision,
            idempotent_replay: true,
        }
    }

    pub open spec fn can_play(self, now: u64, lead: u64) -> bool {
        self.transport.playing || (now + lead <= u64::MAX && self.position_fits(now)
            && self.revision < u64::MAX)
    }

    pub open spec fn after_play(self, now: u64, lead: u64) -> (RoomState, TransportEventData) {
        if self.transport.playing {
            (self, self.replay_event(TransportAction::Play))
        } else {
            let next = self.reanchored(
                true,
                self.looped_position(now) as u64,
                (now + lead) as u64,
                self.transport.playback_rate,
            );
            (next, Self::fresh_event(next, TransportAction::Play))
        }
    }

    pub open spec fn can_pause(self, now: u64, lead: u64) -> bool {
        now + lead <= u64::MAX && self.position_fits((now + lead) as u64) && self.revision
            < u64::MAX
    }

    pub open spec fn after_pause(self, now: u64, lead: u64) -> (RoomState, TransportEventData) {
        let effective = (now + lead) as u64;
        let next = self.reanchored(
            false,
            self.looped_position(effective) as u64,
            effective,
            self.transport.playback_rate,
        );
        (next, Self::fresh_event(next, TransportAction::Pause))
    }

    pub open spec fn can_jump(self, now: u64, lead: u64) -> bool {
        now + lead <= u64::MAX && self.revision < u64::MAX
    }

    pub open spec fn after_seek(self, now: u64, lead: u64, position: u64, action: TransportAction) -> (RoomState, TransportEventData) {
        let next = self.reanchored(
            self.transport.playing,
            position,
            (now + lead) as u64,
            self.transport.playback_rate,
        );
        (next, Self::fresh_event(next, action))
    }

    pub open spec fn can_release_cue(self, now: u64, lead: u64) -> bool {
        self.cue_point_us is None || self.can_jump(now, lead)
    }

    pub open spec fn after_cue_release(self, now: u64, lead: u64) -> (RoomState, TransportEventData) {
        match self.cue_point_us {
            None => (self, self.replay_event(TransportAction::CueRelease)),
            Some(cue) => {
                let next = self.reanchored(
                    false,
                    cue,
                    (now + lead) as u64,
                    self.transport.playback_rate,
                );
                (next, Self::fresh_event(next, TransportAction::CueRelease))
            },
        }
    }

    pub open spec fn can_change_rate(self, now: u64, lead: u64, rate: u64) -> bool {
        self.transport.playback_rate == rate || self.can_pause(now, lead)
    }

    pub open spec fn after_rate_change(self, now: u64, lead: u64, rate: u64) -> (RoomState, TransportEventData) {
        if self.transport.playback_rate == rate {
            (self, self.replay_event(TransportAction::SetTempo))
        } else {
            let effective = (now + lead) as u64;
            let next = self.reanchored(
                self.transport.playing,
                self.looped_position(effective) as u64,
                effective,
                rate,
            );
            (next, Self::fresh_event(next, TransportAction::SetTempo))
        }
    }

    pub open spec fn after_set_cue_point(self, position: u64) -> (RoomState, CuePointEventData) {
        let next = RoomState {
            cue_point_us: Some(position),
            revision: (self.revision + 1) as u64,
            ..self
        };
        (next, CuePointEventData { position_us: position, revision: next.revision })
    }

    pub open spec fn after_set_loop(self, start: u64, end: u64) -> (RoomState, CuePointEventData, LoopEventData) {
        let (cued, cue_event) = self.after_set_cue_point(start);
        let next = RoomState {
            loop_region: Some(LoopRegion { start_us: start, end_us: end, active: true }),
            revision: (cued.revision + 1) as u64,
            ..cued
        };
        (
            next,
            cue_event,
            LoopEventData { start_us: start, end_us: end, active: true, revision: next.revision },
        )
    }

    pub open spec fn after_set_loop_active(self, active: bool) -> (RoomState, Option<LoopEventData>) {
        match self.loop_region {
            None => (self, None),
            Some(l) => {
                let next = RoomState {
                    loop_region: Some(LoopRegion { active, ..l }),
                    revision: (self.revision + 1) as u64,
                    ..self
                };
                (
                    next,
                    Some(
                        LoopEventData {
                            start_us: l.start_us,
                            end_us: l.end_us,
                            active,
                            revision: next.revision,
                        },
                    ),
                )
            },
        }
    }

    pub open spec fn after_remove_cue_point(self) -> (RoomState, Option<RemovalEventData>) {
        match self.cue_point_us {
            None => (self, None),
            Some(_) => {
                let next = RoomState {
                    cue_point_us: None,
                    revision: (self.revision + 1) as u64,
                    ..self
                };
                (next, Some(RemovalEventData { revision: next.revision }))
            },
        }
    }

    pub open spec fn after_remove_loop(self) -> (RoomState, Option<RemovalEventData>) {
        match self.loop_region {
            None => (self, None),
            Some(_) => {
                let next = RoomState {
                    loop_region: None,
                    revision: (self.revision + 1) as u64,
                    ..self
                };
                (next, Some(RemovalEventData { revision: next.revision }))
            },
        }
    }

    pub fn new() -> (r: Self)
        ensures
            r == initial_room(),
    {
        RoomState {
            transport: TransportState::initial(),
            nudge_enabled: true,
            bass_cut_enabled: false,
            pitch_lock_enabled: true,
            pfl_enabled: false,
            cue_point_us: None,
            loop_region: None,
            revision: 0,
        }
    }

    /// Whether computing the position at `now_us` stays within `u64`.
    pub fn position_fits_at(&self, now_us: ServerTimeUs) -> (r: bool)
        ensures
            r == self.position_fits(now_us),
    {
        raw_position_wide(&self.transport, now_us) <= u64::MAX as u128
    }

    pub fn current_position(&self, now_us: ServerTimeUs) -> (r: u64)
        requires
            self.position_fits(now_us),
        ensures
            r == self.looped_position(now_us),
    {
        self.position_at_with_loop(now_us)
    }

    fn position_at_with_loop(&self, now_us: ServerTimeUs) -> (r: u64)
        requires
            self.position_fits(now_us),
        ensures
            r == self.looped_position(now_us),
            r <= self.transport.raw_position(now_us),
    {
        let raw = self.transport.position_at(now_us);
        let loop_region = match self.loop_region {
            None => {
                return raw;
            },
            Some(l) => l,
        };
        if !loop_region.active || loop_region.end_us <= loop_region.start_us {
            return raw;
        }
        if self.transport.anchor_position_us > loop_region.end_us || raw < loop_region.end_us {
            return raw;
        }
        let loop_len = loop_region.end_us - loop_region.start_us;
        let offset = (raw - loop_region.start_us) % loop_len;
        assert(offset < loop_len);
        loop_region.start_us + offset
    }

    /// Sets one of the deck's boolean settings, with the idempotent
    /// convention of `set_nudge_enabled`.
    pub fn set_setting(&mut self, which: DeckSetting, enabled: bool) -> (r: BoolSettingEventData)
        requires
            old(self).can_set(which, enabled),
        ensures
            (*final(self), r) == old(self).after_setting(which, enabled),
    {
        let current = match which {
            DeckSetting::Nudge => self.nudge_enabled,
            DeckSetting::BassCut => self.bass_cut_enabled,
            DeckSetting::PitchLock => self.pitch_lock_enabled,
            DeckSetting::Pfl => self.pfl_enabled,
        };
        if current == enabled {
            return BoolSettingEventData { enabled, revision: self.revision, idempotent_replay: true };
        }
        match which {
            DeckSetting::Nudge => self.nudge_enabled = enabled,
            DeckSetting::BassCut => self.bass_cut_enabled = enabled,
            DeckSetting::PitchLock => self.pitch_lock_enabled = enabled,
            DeckSetting::Pfl => self.pfl_enabled = enabled,
        }
        self.revision = self.revision + 1;
        BoolSettingEventData { enabled, revision: self.revision, idempotent_replay: false }
    }

    /// Toggles the deck's tempo-nudge setting. Idempotent: setting it to its
    /// current value does not bump the revision or count as a fresh change.
    pub fn set_nudge_enabled(&mut self, enabled: bool) -> (r: BoolSettingEventData)
        requires
            old(self).can_set(DeckSetting::Nudge, enabled),
        ensures
            (*final(self), r) == old(self).after_setting(DeckSetting::Nudge, enabled),
    {
        self.set_setting(DeckSetting::Nudge, enabled)
    }

    /// Toggles the deck's bass-cut setting, with the same idempotent
    /// convention as `set_nudge_enabled`.
    pub fn set_bass_cut_enabled(&mut self, enabled: bool) -> (r: BoolSettingEventData)
        requires
            old(self).can_set(DeckSetting::BassCut, enabled),
        ensures
            (*final(self), r) == old(self).after_setting(DeckSetting::BassCut, enabled),
    {
        self.set_setting(DeckSetting::BassCut, enabled)
    }

    /// Toggles the deck's pitch-lock setting, with the same idempotent
    /// convention as `set_nudge_enabled`.
    pub fn set_pitch_lock_enabled(&mut self, enabled: bool) -> (r: BoolSettingEventData)
        requires
            old(self).can_set(DeckSetting::PitchLock, enabled),
        ensures
            (*final(self), r) == old(self).after_setting(DeckSetting::PitchLock, enabled),
    {
        self.set_setting(DeckSetting::PitchLock, enabled)
    }

    /// Toggles whether the deck is in a headphone-role client's mix, with
    /// the same idempotent convention as `set_nudge_enabled`.
    pub fn set_pfl_enabled(&mut self, enabled: bool) -> (r: BoolSettingEventData)
        requires
            old(self).can_set(DeckSetting::Pfl, enabled),
        ensures
            (*final(self), r) == old(self).after_setting(DeckSetting::Pfl, enabled),
    {
        self.set_setting(DeckSetting::Pfl, enabled)
    }

    /// Sets (or overwrites) the deck's single cue point. Not idempotent by
    /// value: setting the same position again is still a fresh action and
    /// bumps the revision.
    pub fn set_cue_point(&mut self, position_us: u64) -> (r: CuePointEventData)
        requires
            old(self).revision < u64::MAX,
        ensures
            (*final(self), r) == old(self).after_set_cue_point(position_us),
    {
        self.cue_point_us = Some(position_us);
        self.revision = self.revision + 1;
        CuePointEventData { position_us, revision: self.revision }
    }

    /// Clears the deck's cue point. Returns `None`, changing nothing, when
    /// no cue point is set.
    pub fn remove_cue_point(&mut self) -> (r: Option<RemovalEventData>)
        requires
            old(self).cue_point_us is None || old(self).revision < u64::MAX,
        ensures
            (*final(self), r) == old(self).after_remove_cue_point(),
    {
        if self.cue_point_us.is_none() {
            return None;
        }
        self.cue_point_us = None;
        self.revision = self.revision + 1;
        Some(RemovalEventData { revision: self.revision })
    }

    /// Inserts/overwrites the deck's single loop region, always active, and
    /// moves the cue point to its start. Two fresh revisions, one for the cue
    /// point and one for the loop, reported as two separate events: one
    /// event cannot carry two revision bumps without the second failing
    /// every client's staleness check.
    pub fn set_loop(&mut self, start_us: u64, end_us: u64) -> (r: (CuePointEventData, LoopEventData))
        requires
            old(self).revision < u64::MAX - 1,
        ensures
            (*final(self), r.0, r.1) == old(self).after_set_loop(start_us, end_us),
            final(self).loop_region == Some(
                LoopRegion { start_us: start_us, end_us: end_us, active: true },
            ),
            r.1.start_us == start_us && r.1.end_us == end_us && r.1.active,
            final(self).cue_point_us == Some(start_us) && r.0.position_us == start_us,
    {
        let cue_event = self.set_cue_point(start_us);
        self.loop_region = Some(LoopRegion { start_us, end_us, active: true });
        self.revision = self.revision + 1;
        let loop_event = LoopEventData { start_us, end_us, active: true, revision: self.revision };
        (cue_event, loop_event)
    }

    /// Toggles the existing loop's active flag without changing its bounds.
    /// Returns `None`, changing nothing, when no loop exists.
    pub fn set_loop_active(&mut self, active: bool) -> (r: Option<LoopEventData>)
        requires
            old(self).loop_region is None || old(self).revision < u64::MAX,
        ensures
            (*final(self), r) == old(self).after_set_loop_active(active),
    {
        match self.loop_region {
            None => None,
            Some(l) => {
                self.loop_region = Some(LoopRegion { start_us: l.start_us, end_us: l.end_us, active });
                self.revision = self.revision + 1;
                Some(LoopEventData { start_us: l.start_us, end_us: l.end_us, active, revision: self.revision })
            },
        }
    }

    /// Removes the deck's loop region entirely. Returns `None`, changing
    /// nothing, when no loop exists.
    pub fn remove_loop(&mut self) -> (r: Option<RemovalEventData>)
        requires
            old(self).loop_region is None || old(self).revision < u64::MAX,
        ensures
            (*final(self), r) == old(self).after_remove_loop(),
    {
        if self.loop_region.is_none() {
            return None;
        }
        self.loop_region = None;
        self.revision = self.revision + 1;
        Some(RemovalEventData { revision: self.revision })
    }

    fn reanchor(&mut self, playing: bool, position_us: u64, time_us: u64, rate: u64)
        requires
            old(self).revision < u64::MAX,
        ensures
            *final(self) == old(self).reanchored(playing, position_us, time_us, rate),
    {
        self.transport.playing = playing;
        self.transport.anchor_position_us = position_us;
        self.transport.anchor_server_time_us = time_us;
        self.transport.playback_rate = rate;
        self.revision = self.revision + 1;
    }

    fn fresh(&self, action: TransportAction) -> (r: TransportEventData)
        ensures
            r == Self::fresh_event(*self, action),
    {
        TransportEventData {
            action,
            effective_server_time_us: self.transport.anchor_server_time_us,
            position_us: self.transport.anchor_position_us,
            playback_rate: self.transport.playback_rate,
            revision: self.revision,
            idempotent_replay: false,
        }
    }

    fn replay(&self, action: TransportAction) -> (r: TransportEventData)
        ensures
            r == self.replay_event(action),
    {
        TransportEventData {
            action,
            effective_server_time_us: self.transport.anchor_server_time_us,
            position_us: self.transport.anchor_position_us,
            playback_rate: self.transport.playback_rate,
            revision: self.revision,
            idempotent_replay: true,
        }
    }

    /// Schedules a play transition `lead_time_us` in the future. If playback
    /// is already active, the request is idempotent and reports the existing
    /// anchor instead of restarting playback.
    pub fn schedule_play(&mut self, now_us: ServerTimeUs, lead_time_us: u64) -> (r: TransportEventData)
        requires
            old(self).can_play(now_us, lead_time_us),
        ensures
            (*final(self), r) == old(self).after_play(now_us, lead_time_us),
    {
        if self.transport.playing {
            return self.replay(TransportAction::Play);
        }
        let effective_time_us = now_us + lead_time_us;
        let position_us = self.position_at_with_loop(now_us);
        let rate = self.transport.playback_rate;
        self.reanchor(true, position_us, effective_time_us, rate);
        self.fresh(TransportAction::Play)
    }

    /// Schedules a pause transition `lead_time_us` in the future. Playback
    /// continues until the effective time, then the anchor freezes there.
    pub fn schedule_pause(&mut self, now_us: ServerTimeUs, lead_time_us: u64) -> (r: TransportEventData)
        requires
            old(self).can_pause(now_us, lead_time_us),
        ensures
            (*final(self), r) == old(self).after_pause(now_us, lead_time_us),
    {
        let effective_time_us = now_us + lead_time_us;
        let position_us = self.position_at_with_loop(effective_time_us);
        let rate = self.transport.playback_rate;
        self.reanchor(false, position_us, effective_time_us, rate);
        self.fresh(TransportAction::Pause)
    }

    /// Schedules a restart `lead_time_us` in the future: resets the playhead
    /// to the beginning of the track without changing whether it is playing.
    pub fn schedule_restart(&mut self, now_us: ServerTimeUs, lead_time_us: u64) -> (r: TransportEventData)
        requires
            old(self).can_jump(now_us, lead_time_us),
        ensures
            (*final(self), r) == old(self).after_seek(now_us, lead_time_us, 0, TransportAction::Restart),
    {
        let effective_time_us = now_us + lead_time_us;
        let playing = self.transport.playing;
        let rate = self.transport.playback_rate;
        self.reanchor(playing, 0, effective_time_us, rate);
        self.fresh(TransportAction::Restart)
    }

    /// Schedules a seek to `position_us`, `lead_time_us` in the future,
    /// without changing whether it is playing. Always a fresh transition:
    /// landing on the same position twice is still the intended effect.
    pub fn schedule_seek(&mut self, now_us: ServerTimeUs, lead_time_us: u64, position_us: u64) -> (r: TransportEventData)
        requires
            old(self).can_jump(now_us, lead_time_us),
        ensures
            (*final(self), r) == old(self).after_seek(now_us, lead_time_us, position_us, TransportAction::Seek),
    {
        let effective_time_us = now_us + lead_time_us;
        let playing = self.transport.playing;
        let rate = self.transport.playback_rate;
        self.reanchor(playing, position_us, effective_time_us, rate);
        self.fresh(TransportAction::Seek)
    }

    /// Releases a cue-point preview hold `lead_time_us` in the future:
    /// pauses the transport at the deck's cue point. With no cue point set
    /// this is a no-op reported as an idempotent replay.
    pub fn schedule_cue_release(&mut self, now_us: ServerTimeUs, lead_time_us: u64) -> (r: TransportEventData)
        requires
            old(self).can_release_cue(now_us, lead_time_us),
        ensures
            (*final(self), r) == old(self).after_cue_release(now_us, lead_time_us),
    {
        let cue_position_us = match self.cue_point_us {
            None => {
                return self.replay(TransportAction::CueRelease);
            },
            Some(p) => p,
        };
        let effective_time_us = now_us + lead_time_us;
        let rate = self.transport.playback_rate;
        self.reanchor(false, cue_position_us, effective_time_us, rate);
        self.fresh(TransportAction::CueRelease)
    }

    /// Schedules a playback-rate change `lead_time_us` in the future without
    /// changing whether it is playing: the position is re-anchored at the
    /// effective time under the old rate, and the anchor switches to the new
    /// rate from there. Idempotent when the rate is unchanged.
    pub fn schedule_playback_rate(&mut self, now_us: ServerTimeUs, lead_time_us: u64, new_rate: u64) -> (r: TransportEventData)
        requires
            old(self).can_change_rate(now_us, lead_time_us, new_rate),
        ensures
            (*final(self), r) == old(self).after_rate_change(now_us, lead_time_us, new_rate),
    {
        if self.transport.playback_rate == new_rate {
            return self.replay(TransportAction::SetTempo);
        }
        let effective_time_us = now_us + lead_time_us;
        let position_us = self.position_at_with_loop(effective_time_us);
        let playing = self.transport.playing;
        self.reanchor(playing, position_us, effective_time_us, new_rate);
        self.fresh(TransportAction::SetTempo)
    }

    pub fn to_dto(&self) -> (d: crate::protocol::DeckStateDto)
        ensures
            d == self.dto(),
            d.loop_region is None <==> self.loop_region is None,
            self.loop_region matches Some(l) ==> d.loop_region == Some(
                LoopRegionDto { start_us: l.start_us, end_us: l.end_us, active: l.active },
            ),
    {
        crate::protocol::DeckStateDto {
            revision: self.revision,
            transport: self.transport.to_dto(),
            nudge_enabled: self.nudge_enabled,
            bass_cut_enabled: self.bass_cut_enabled,
            pitch_lock_enabled: self.pitch_lock_enabled,
            pfl_enabled: self.pfl_enabled,
            cue_point_us: self.cue_point_us,
            loop_region: match self.loop_region {
                None => None,
                Some(l) => Some(LoopRegionDto { start_us: l.start_us, end_us: l.end_us, active: l.active }),
            },
        }
    }

    /// This deck as it appears in a state snapshot.
    pub open spec fn dto(self) -> crate::protocol::DeckStateDto {
        crate::protocol::DeckStateDto {
            revision: self.revision,
            transport: TransportStateDto {
                playing: self.transport.playing,
                anchor_position_us: self.transport.anchor_position_us,
                anchor_server_time_us: self.transport.anchor_server_time_us,
                playback_rate: self.transport.playback_rate,
            },
            nudge_enabled: self.nudge_enabled,
            bass_cut_enabled: self.bass_cut_enabled,
            pitch_lock_enabled: self.pitch_lock_enabled,
            pfl_enabled: self.pfl_enabled,
            cue_point_us: self.cue_point_us,
            loop_region: match self.loop_region {
                None => None,
                Some(l) => Some(LoopRegionDto { start_us: l.start_us, end_us: l.end_us, active: l.active }),
            },
        }
    }
}

impl Default for RoomState {
    fn default() -> (r: Self)
        ensures
            r == initial_room(),
    {
        RoomState::new()
    }
}

/// Where the crossfader starts: centred between the two decks.
pub const CROSSFADER_CENTER: u64 = 500_000_000;

/// The room's crossfader, shared by both decks: a position (parts per
/// billion, 0 = fully deck A) and a curve shape (parts per billion, 0 =
/// equal-power), with a revision counter of its own.
#[derive(Debug, Clone, Copy, PartialEq, Eq, Structural)]
pub struct CrossfaderState {
    pub position: u64,
    pub curve_shape: u64,
    pub revision: u64,
}

/// The outcome of moving the crossfader or changing its curve.
#[derive(Debug, Clone, Copy, PartialEq, Eq, Structural)]
pub struct CrossfaderEventData {
    pub value: u64,
    pub revision: u64,
    pub idempotent_replay: bool,
}

/// The crossfader every room starts with.
pub open spec fn initial_crossfader() -> CrossfaderState {
    CrossfaderState { position: CROSSFADER_CENTER, curve_shape: 0, revision: 0 }
}

impl CrossfaderState {
    /// Moving the crossfader to where it already is changes nothing;
    /// otherwise it moves and the revision advances by one.
    pub open spec fn after_set_position(self, position: u64) -> (CrossfaderState, CrossfaderEventData) {
        if self.position == position {
            (self, CrossfaderEventData { value: position, revision: self.revision, idempotent_replay: true })
        } else {
            let next = CrossfaderState { position, revision: (self.revision + 1) as u64, ..self };
            (next, CrossfaderEventData { value: position, revision: next.revision, idempotent_replay: false })
        }
    }

    /// Setting the curve to its current shape changes nothing; otherwise it
    /// changes and the revision advances by one.
    pub open spec fn after_set_curve_shape(self, shape: u64) -> (CrossfaderState, CrossfaderEventData) {
        if self.curve_shape == shape {
            (self, CrossfaderEventData { value: shape, revision: self.revision, idempotent_replay: true })
        } else {
            let next = CrossfaderState { curve_shape: shape, revision: (self.revision + 1) as u64, ..self };
            (next, CrossfaderEventData { value: shape, revision: next.revision, idempotent_replay: false })
        }
    }

    pub fn new() -> (c: Self)
        ensures
            c == initial_crossfader(),
    {
        CrossfaderState { position: CROSSFADER_CENTER, curve_shape: 0, revision: 0 }
    }

    pub fn set_position(&mut self, position: u64) -> (r: CrossfaderEventData)
        requires
            old(self).position == position || old(self).revision < u64::MAX,
        ensures
            (*final(self), r) == old(self).after_set_position(position),
    {
        if self.position == position {
            return CrossfaderEventData { value: position, revision: self.revision, idempotent_replay: true };
        }
        self.position = position;
        self.revision = self.revision + 1;
        CrossfaderEventData { value: position, revision: self.revision, idempotent_replay: false }
    }

    pub fn set_curve_shape(&mut self, shape: u64) -> (r: CrossfaderEventData)
        requires
            old(self).curve_shape == shape || old(self).revision < u64::MAX,
        ensures
            (*final(self), r) == old(self).after_set_curve_shape(shape),
    {
        if self.curve_shape == shape {
            return CrossfaderEventData { value: shape, revision: self.revision, idempotent_replay: true };
        }
        self.curve_shape = shape;
        self.revision = self.revision + 1;
        CrossfaderEventData { value: shape, revision: self.revision, idempotent_replay: false }
    }
}

/// A paused transport is at its anchor position whatever the time.
pub proof fn law_paused_position_is_anchor(t: TransportState, now: u64)
    requires
        !t.playing,
    ensures
        t.raw_position(now) == t.anchor_position_us,
{
}

/// A playing transport is at its anchor position at its anchor time.
pub proof fn law_position_at_anchor_time_is_anchor(t: TransportState)
    ensures
        t.raw_position(t.anchor_server_time_us) == t.anchor_position_us,
{
    assert(0 * t.playback_rate == 0);
}

/// Every deck, looping or not, stands at its landing position at its anchor
/// time: at its anchor position, or at the loop's start when the anchor is
/// the end of the active loop.
pub proof fn law_deck_at_anchor_time_is_at_anchor(r: RoomState)
    ensures
        r.looped_position(r.transport.anchor_server_time_us) == r.landing_position(
            r.transport.anchor_position_us,
        ),
{
    law_position_at_anchor_time_is_anchor(r.transport);
    lemma_loop_end_wraps_to_start(r);
}

/// A paused deck stays at its landing position, whatever the time.
pub proof fn law_paused_deck_holds_its_position(r: RoomState, now: u64)
    requires
        !r.transport.playing,
    ensures
        r.looped_position(now) == r.landing_position(r.transport.anchor_position_us),
{
    lemma_loop_end_wraps_to_start(r);
}

/// The end of a loop is one whole loop length past its start.
proof fn lemma_loop_end_wraps_to_start(r: RoomState)
    ensures
        r.loop_region matches Some(l) ==> (l.start_us < l.end_us ==> (l.end_us - l.start_us) % ((
        l.end_us - l.start_us) as int) == 0),
{
    if let Some(l) = r.loop_region {
        let len: int = l.end_us - l.start_us;
        assert(len > 0 ==> len % len == 0) by (nonlinear_arith);
    }
}

/// A position a deck reports is never the end of its active loop: a wrapped
/// position lies before the end, and an unwrapped one is either before it or
/// past it.
proof fn lemma_reported_position_avoids_loop_end(r: RoomState, now: u64)
    ensures
        r.loop_region matches Some(l) ==> (l.active && l.start_us < l.end_us ==> r.looped_position(
            now,
        ) != l.end_us),
{
    let elapsed = elapsed_since(now, r.transport.anchor_server_time_us);
    let rate = r.transport.playback_rate;
    assert(elapsed * rate >= 0) by (nonlinear_arith)
        requires
            elapsed >= 0,
            rate >= 0,
    ;
    assert(r.transport.raw_position(now) >= r.transport.anchor_position_us);
}

/// Every transport event, fresh or replayed, describes a deck that stands
/// at the announced position's landing position at the announced effective
/// time; a fresh play, pause or rate change lands exactly on the announced
/// position where the position fits; a fresh play, pause, restart, seek or
/// cue release takes effect exactly one lead time after it was received, and
/// a fresh rate change likewise.
pub proof fn law_transitions_take_effect_where_announced(
    r: RoomState,
    now: u64,
    lead: u64,
    position: u64,
    rate: u64,
)
    requires
        now + lead <= u64::MAX,
    ensures
        ({
            let (n, e) = r.after_play(now, lead);
            &&& n.looped_position(e.effective_server_time_us) == n.landing_position(e.position_us)
            &&& !e.idempotent_replay ==> e.effective_server_time_us == now + lead
            &&& !e.idempotent_replay && r.position_fits(now) ==> n.landing_position(e.position_us)
                == e.position_us
        }),
        ({
            let (n, e) = r.after_pause(now, lead);
            &&& n.looped_position(e.effective_server_time_us) == n.landing_position(e.position_us)
            &&& e.effective_server_time_us == now + lead
            &&& r.position_fits((now + lead) as u64) ==> n.landing_position(e.position_us)
                == e.position_us
        }),
        ({
            let (n, e) = r.after_seek(now, lead, position, TransportAction::Seek);
            &&& n.looped_position(e.effective_server_time_us) == n.landing_position(e.position_us)
            &&& e.position_us == position
            &&& e.effective_server_time_us == now + lead
        }),
        ({
            let (n, e) = r.after_seek(now, lead, 0, TransportAction::Restart);
            &&& n.looped_position(e.effective_server_time_us) == e.position_us
            &&& e.position_us == 0
            &&& e.effective_server_time_us == now + lead
        }),
        ({
            let (n, e) = r.after_cue_release(now, lead);
            &&& n.looped_position(e.effective_server_time_us) == n.landing_position(e.position_us)
            &&& !e.idempotent_replay ==> e.effective_server_time_us == now + lead && Some(
                e.position_us,
            ) == r.cue_point_us && !n.transport.playing
        }),
        ({
            let (n, e) = r.after_rate_change(now, lead, rate);
            &&& n.looped_position(e.effective_server_time_us) == n.landing_position(e.position_us)
            &&& n.transport.playback_rate == rate
            &&& !e.idempotent_replay ==> e.effective_server_time_us == now + lead
            &&& !e.idempotent_replay && r.position_fits((now + lead) as u64) ==> n.landing_position(
                e.position_us,
            ) == e.position_us
        }),
{
    law_deck_at_anchor_time_is_at_anchor(r);
    law_deck_at_anchor_time_is_at_anchor(r.after_play(now, lead).0);
    law_deck_at_anchor_time_is_at_anchor(r.after_pause(now, lead).0);
    law_deck_at_anchor_time_is_at_anchor(r.after_seek(now, lead, position, TransportAction::Seek).0);
    law_deck_at_anchor_time_is_at_anchor(r.after_seek(now, lead, 0, TransportAction::Restart).0);
    law_deck_at_anchor_time_is_at_anchor(r.after_cue_release(now, lead).0);
    law_deck_at_anchor_time_is_at_anchor(r.after_rate_change(now, lead, rate).0);
    lemma_reported_position_avoids_loop_end(r, now);
    lemma_reported_position_avoids_loop_end(r, (now + lead) as u64);
}

/// After a pause the deck holds the announced position at every time,
/// where that position fits.
pub proof fn law_pause_freezes_the_deck(r: RoomState, now: u64, lead: u64, later: u64)
    requires
        r.position_fits((now + lead) as u64),
    ensures
        ({
            let (n, e) = r.after_pause(now, lead);
            n.looped_position(later) == e.position_us
        }),
{
    lemma_reported_position_avoids_loop_end(r, (now + lead) as u64);
}

/// Playing a deck that a play request has just started is a replay that
/// changes nothing.
pub proof fn law_second_play_is_a_replay(r: RoomState, now: u64, lead: u64, now2: u64, lead2: u64)
    ensures
        ({
            let (n, _) = r.after_play(now, lead);
            let (n2, e2) = n.after_play(now2, lead2);
            &&& n2 == n
            &&& e2.idempotent_replay
            &&& e2.revision == n.revision
        }),
{
}

/// A position wrapped by an active loop lies within the loop, a whole number
/// of loop lengths from the unwrapped position.
pub proof fn law_wrapped_position_stays_in_loop(r: RoomState, now: u64)
    requires
        r.loop_region matches Some(l) && l.active && l.start_us < l.end_us
            && r.transport.anchor_position_us <= l.end_us && r.transport.raw_position(now)
            >= l.end_us,
    ensures
        r.loop_region->0.start_us <= r.looped_position(now) < r.loop_region->0.end_us,
        (r.looped_position(now) - r.loop_region->0.start_us) % ((r.loop_region->0.end_us
            - r.loop_region->0.start_us) as int) == (r.transport.raw_position(now)
            - r.loop_region->0.start_us) % ((r.loop_region->0.end_us
            - r.loop_region->0.start_us) as int),
{
    let l = r.loop_region->0;
    let len: int = l.end_us - l.start_us;
    let x: int = r.transport.raw_position(now) - l.start_us;
    assert((x % len) % len == x % len) by (nonlinear_arith)
        requires
            len > 0,
    ;
}

/// A deck whose anchor lies past its loop's end (placed there by a seek,
/// restart or cue release) is never snapped back into the loop.
pub proof fn law_no_snap_back_past_loop_end(r: RoomState, now: u64)
    requires
        r.loop_region matches Some(l) && r.transport.anchor_position_us > l.end_us,
    ensures
        r.looped_position(now) == r.transport.raw_position(now),
{
}

/// A playing transport advances from its anchor by the elapsed time scaled
/// by its rate, in whole microseconds rounded down: `advanced` microseconds
/// of track cover `elapsed * rate` parts per billion, up to one microsecond
/// short. Where the advance would not fit it stops at `u64::MAX`.
pub proof fn law_playing_position_advances_at_its_rate(t: TransportState, now: u64)
    requires
        t.playing,
        now >= t.anchor_server_time_us,
    ensures
        ({
            let advanced = t.raw_position(now) - t.anchor_position_us;
            let scaled = (now - t.anchor_server_time_us) * t.playback_rate;
            &&& 0 <= advanced <= u64::MAX
            &&& advanced < u64::MAX ==> advanced * 1_000_000_000 <= scaled < (advanced + 1)
                * 1_000_000_000
            &&& advanced == u64::MAX ==> u64::MAX * 1_000_000_000 <= scaled
        }),
{
    let e: int = now - t.anchor_server_time_us;
    let r: int = t.playback_rate as int;
    let q: int = e * r / 1_000_000_000;
    assert(e * r >= 0) by (nonlinear_arith)
        requires
            e >= 0,
            r >= 0,
    ;
    assert(q * 1_000_000_000 <= e * r < (q + 1) * 1_000_000_000 && q >= 0) by (nonlinear_arith)
        requires
            q == e * r / 1_000_000_000,
            e * r >= 0,
    ;
}

/// Before its anchor time a transport stands at its anchor position.
pub proof fn law_no_advance_before_the_anchor_time(t: TransportState, now: u64)
    requires
        now <= t.anchor_server_time_us,
    ensures
        t.raw_position(now) == t.anchor_position_us,
{
}

/// Setting a loop installs exactly that loop, active whatever loop was there
/// before (even an inactive one), moves the cue point to the loop's start,
/// leaves the transport alone, and reports both changes with two fresh
/// revisions.
pub proof fn law_set_loop_installs_an_active_loop(r: RoomState, start: u64, end: u64)
    requires
        r.revision < u64::MAX - 1,
    ensures
        ({
            let (n, cue, lp) = r.after_set_loop(start, end);
            &&& n.loop_region == Some(LoopRegion { start_us: start, end_us: end, active: true })
            &&& lp.start_us == start && lp.end_us == end && lp.active
            &&& n.cue_point_us == Some(start) && cue.position_us == start
            &&& n.transport == r.transport
            &&& cue.revision == r.revision + 1 && lp.revision == r.revision + 2
            &&& n.revision == r.revision + 2
        }),
{
}

/// A snapshot reports a deck as it is stored: its loop (none exactly when
/// there is none, else the same bounds and active flag), cue point,
/// settings, transport and revision.
pub proof fn law_snapshot_reports_the_stored_deck(r: RoomState)
    ensures
        r.dto().loop_region is None <==> r.loop_region is None,
        r.loop_region matches Some(l) ==> (r.dto().loop_region matches Some(d) && d.start_us
            == l.start_us && d.end_us == l.end_us && d.active == l.active),
        r.dto().cue_point_us == r.cue_point_us,
        r.dto().revision == r.revision,
        r.dto().nudge_enabled == r.nudge_enabled && r.dto().bass_cut_enabled
            == r.bass_cut_enabled && r.dto().pitch_lock_enabled == r.pitch_lock_enabled
            && r.dto().pfl_enabled == r.pfl_enabled,
        r.dto().transport.playing == r.transport.playing && r.dto().transport.anchor_position_us
            == r.transport.anchor_position_us && r.dto().transport.anchor_server_time_us
            == r.transport.anchor_server_time_us && r.dto().transport.playback_rate
            == r.transport.playback_rate,
{
}

/// Without an active loop a deck's position is its unwrapped position.
pub proof fn law_inactive_loop_is_inert(r: RoomState, now: u64)
    requires
        r.loop_region is None || !r.loop_region->0.active,
    ensures
        r.looped_position(now) == r.transport.raw_position(now),
{
}

/// Setting a boolean setting twice to the same value: the second time is a
/// replay that changes nothing.
pub proof fn law_setting_is_idempotent(r: RoomState, which: DeckSetting, value: bool)
    ensures
        ({
            let (n, e) = r.after_setting(which, value);
            let (n2, e2) = n.after_setting(which, value);
            &&& n.setting(which) == value
            &&& n2 == n
            &&& e2.idempotent_replay
            &&& e2.revision == e.revision
        }),
{
}

/// The revision is the deck's sequence number: each operation reports the
/// revision it leaves the deck at, and it advances by one exactly for each
/// fresh change (by two for a loop insertion), never otherwise.
pub proof fn law_revision_counts_fresh_changes(
    r: RoomState,
    now: u64,
    lead: u64,
    position: u64,
    rate: u64,
    which: DeckSetting,
    value: bool,
    start: u64,
    end: u64,
    active: bool,
)
    requires
        r.revision < u64::MAX - 1,
    ensures
        ({
            let (n, e) = r.after_play(now, lead);
            e.revision == n.revision && n.revision == r.revision + if e.idempotent_replay {
                0int
            } else {
                1int
            }
        }),
        ({
            let (n, e) = r.after_pause(now, lead);
            e.revision == n.revision && n.revision == r.revision + 1 && !e.idempotent_replay
        }),
        ({
            let (n, e) = r.after_seek(now, lead, position, TransportAction::Seek);
            e.revision == n.revision && n.revision == r.revision + 1 && !e.idempotent_replay
        }),
        ({
            let (n, e) = r.after_cue_release(now, lead);
            e.revision == n.revision && n.revision == r.revision + if e.idempotent_replay {
                0int
            } else {
                1int
            }
        }),
        ({
            let (n, e) = r.after_rate_change(now, lead, rate);
            e.revision == n.revision && n.revision == r.revision + if e.idempotent_replay {
                0int
            } else {
                1int
            }
        }),
        ({
            let (n, e) = r.after_setting(which, value);
            e.revision == n.revision && n.revision == r.revision + if e.idempotent_replay {
                0int
            } else {
                1int
            }
        }),
        ({
            let (n, e) = r.after_set_cue_point(position);
            e.revision == n.revision && n.revision == r.revision + 1
        }),
        ({
            let (n, cue, lp) = r.after_set_loop(start, end);
            &&& cue.revision == r.revision + 1
            &&& lp.revision == n.revision
            &&& n.revision == r.revision + 2
            &&& n.cue_point_us == Some(start)
        }),
        ({
            let (n, e) = r.after_set_loop_active(active);
            match e {
                None => n == r,
                Some(l) => l.revision == n.revision && n.revision == r.revision + 1,
            }
        }),
        ({
            let (n, e) = r.after_remove_cue_point();
            match e {
                None => n == r,
                Some(x) => x.revision == n.revision && n.revision == r.revision + 1
                    && n.cue_point_us is None,
            }
        }),
        ({
            let (n, e) = r.after_remove_loop();
            match e {
                None => n == r,
                Some(x) => x.revision == n.revision && n.revision == r.revision + 1
                    && n.loop_region is None,
            }
        }),
{
}

/// Moving the crossfader (or setting its curve) twice to the same value:
/// the second time is a replay that changes nothing.
pub proof fn law_crossfader_is_idempotent(c: CrossfaderState, position: u64, shape: u64)
    ensures
        ({
            let (n, _) = c.after_set_position(position);
            let (n2, e2) = n.after_set_position(position);
            n2 == n && e2.idempotent_replay && n.position == position
        }),
        ({
            let (n, _) = c.after_set_curve_shape(shape);
            let (n2, e2) = n.after_set_curve_shape(shape);
            n2 == n && e2.idempotent_replay && n.curve_shape == shape
        }),
{
}

/// The version field of a UUID held as a big-endian `u128`.
pub open spec fn uuid_version(id: u128) -> u128 {
    (id >> 76u128) & 0xfu128
}

/// The two variant bits of a UUID held as a big-endian `u128`.
pub open spec fn uuid_variant_bits(id: u128) -> u128 {
    (id >> 62u128) & 0x3u128
}

/// `Uuid::new_v4`, read back through `Uuid::as_u128`. The value is random;
/// the source masks in version 4 and the RFC 4122 variant (bits `10`), and
/// that is all this claims of it. The outside function panics if the
/// operating system cannot supply random bytes.
#[verifier::external_body]
fn uuid_new_v4() -> (r: u128)
    ensures
        uuid_version(r) == 4,
        uuid_variant_bits(r) == 2,
{
    Uuid::new_v4().as_u128()
}

/// A fresh random identifier for a broadcast event or a connection: a
/// version-4 UUID as a `u128`.
pub fn new_event_id() -> (r: u128)
    ensures
        uuid_version(r) == 4,
        uuid_variant_bits(r) == 2,
{
    uuid_new_v4()
}

} // verus!
