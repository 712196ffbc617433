//! The server's decisions: what a room does with each client message, and
//! what it answers the sender and broadcasts to every client. Reading the
//! socket, writing to it and fanning broadcasts out stay with the caller.
use crate::protocol::{trimmed, ClientMessage, DeckId, ServerMessage, TransportAction};
use crate::room::{
    initial_crossfader, initial_room, BoolSettingEventData, CrossfaderState, DeckSetting, RoomState,
    TransportEventData,
};
use crate::clock::{duration_as_micros, duration_micros, Clock};
use crate::room::{new_event_id, uuid_variant_bits, uuid_version};
use std::collections::VecDeque;
use std::time::Duration;
use vstd::prelude::*;

verus! {

/// Bound on how many recent request ids are remembered for deduplication.
pub const DEDUP_CACHE_CAPACITY: usize = 256;

/// The request ids seen so far, oldest first, once each. At most
/// `DEDUP_CACHE_CAPACITY` are kept; recording one more forgets the oldest.
pub open spec fn after_record(seen: Seq<Seq<char>>, request_id: Seq<char>) -> Seq<Seq<char>> {
    if seen.contains(request_id) {
        seen
    } else if seen.len() >= DEDUP_CACHE_CAPACITY {
        seen.drop_first().push(request_id)
    } else {
        seen.push(request_id)
    }
}

/// The recently seen request ids, oldest first, looked up one by one (the
/// cache holds at most `DEDUP_CACHE_CAPACITY` ids).
pub struct SeenRequests {
    order: VecDeque<String>,
}

impl View for SeenRequests {
    type V = Seq<Seq<char>>;

    closed spec fn view(&self) -> Seq<Seq<char>> {
        self.order@.map_values(|s: String| s@)
    }
}

impl SeenRequests {
    /// Within capacity, and no id twice.
    pub open spec fn wf(&self) -> bool {
        &&& self@.len() <= DEDUP_CACHE_CAPACITY
        &&& self@.no_duplicates()
    }

    /// No remembered id is blank once trimmed.
    pub open spec fn ids_not_blank(&self) -> bool {
        forall|k: int| 0 <= k < self@.len() ==> trimmed(#[trigger] self@[k]).len() != 0
    }

    /// Whether `request_id` is among the remembered ids.
    pub fn contains(&self, request_id: &str) -> (r: bool)
        ensures
            r == self@.contains(request_id@),
    {
        let key = request_id.to_owned();
        let n = self.order.len();
        let mut i: usize = 0;
        while i < n
            invariant
                n == self.order.len(),
                i <= n,
                key@ == request_id@,
                forall|j: int| 0 <= j < i ==> self@[j] != key@,
                self@.len() == n,
            decreases n - i,
        {
            assert(self@[i as int] == self.order@[i as int]@);
            if self.order[i] == key {
                assert(self@.contains(request_id@));
                return true;
            }
            i = i + 1;
        }
        false
    }

    pub fn new() -> (r: Self)
        ensures
            r@ == Seq::<Seq<char>>::empty(),
            r.wf(),
    {
        let r = SeenRequests { order: VecDeque::new() };
        assert(r@ =~= Seq::<Seq<char>>::empty());
        r
    }

    /// Returns true if `request_id` had already been recorded (a duplicate
    /// that must not be applied again); otherwise records it.
    pub fn check_and_record(&mut self, request_id: &str) -> (r: bool)
        requires
            old(self).wf(),
        ensures
            final(self).wf(),
            old(self).ids_not_blank() && trimmed(request_id@).len() != 0
                ==> final(self).ids_not_blank(),
            r == old(self)@.contains(request_id@),
            final(self)@ == after_record(old(self)@, request_id@),
            r ==> *final(self) == *old(self),
    {
        let key = request_id.to_owned();
        let n = self.order.len();
        let mut i: usize = 0;
        while i < n
            invariant
                n == self.order.len(),
                i <= n,
                key@ == request_id@,
                forall|j: int| 0 <= j < i ==> self@[j] != key@,
                self@.len() == n,
                self.wf(),
            decreases n - i,
        {
            assert(self@[i as int] == self.order@[i as int]@);
            if self.order[i] == key {
                assert(self@.contains(request_id@));
                return true;
            }
            i = i + 1;
        }
        assert(!self@.contains(request_id@));
        let ghost before = self@;
        if self.order.len() >= DEDUP_CACHE_CAPACITY {
            let _ = self.order.pop_front();
            assert(self@ =~= before.drop_first());
        }
        let ghost middle = self@;
        self.order.push_back(key);
        assert(self@ =~= middle.push(request_id@));
        proof {
            assert(middle.no_duplicates());
            assert(!middle.contains(request_id@));
        }
        false
    }
}

} // verus!

verus! {

/// Tempo requests apply with no lead time, unlike play/pause/restart:
/// tempo is a continuous stream of frequent samples, and hiding latency is
/// the receiving client's job through a buffered, interpolated render.
/// Scheduling each sample ahead would make the audio chase a stale target.
pub const TEMPO_SAMPLE_LEAD_TIME_US: u64 = 0;

pub const INVALID_MESSAGE_CODE: &'static str = "invalid_message";

pub const SET_TEMPO_VIA_TRANSPORT_MESSAGE: &'static str =
    "set_tempo is not valid for transport_request; use set_tempo_request instead";

pub const SEEK_VIA_TRANSPORT_MESSAGE: &'static str =
    "seek is not valid for transport_request; use seek_request instead";

pub const UNPARSABLE_MESSAGE_PREFIX: &'static str = "Could not parse message: ";

/// What one client message produced: messages for its sender only, and
/// canonical events for every client (the sender included), in order.
pub struct Outcome {
    pub direct: Vec<ServerMessage>,
    pub broadcast: Vec<ServerMessage>,
}

/// A message left unapplied because handling it at the time read would
/// overflow a counter or a position.
#[derive(Debug, Clone, Copy, PartialEq, Eq, Structural)]
pub struct NotApplied {
    /// The clock reading at which the message was received.
    pub received_us: u64,
}

/// The room as the server holds it: two decks, the crossfader, the lead
/// time for scheduled transitions, and the recently seen request ids.
pub struct Session {
    pub deck_a: RoomState,
    pub deck_b: RoomState,
    pub crossfader: CrossfaderState,
    pub schedule_lead_time_us: u64,
    pub seen_requests: SeenRequests,
}

pub open spec fn other_deck(deck: DeckId) -> DeckId {
    match deck {
        DeckId::A => DeckId::B,
        DeckId::B => DeckId::A,
    }
}

/// An error answer with code `invalid_message`.
pub open spec fn is_rejection(m: ServerMessage, request_id: Option<Seq<char>>, reason: Seq<char>) -> bool {
    &&& m matches ServerMessage::Error { request_id: r, code, message }
    &&& match request_id {
        None => r is None,
        Some(id) => r matches Some(s) && s@ == id,
    }
    &&& code@ == INVALID_MESSAGE_CODE@
    &&& message@ == reason
}

/// What a transport action does to a deck, for the actions a transport
/// request may carry.
pub open spec fn transport_op(room: RoomState, action: TransportAction, now: u64, lead: u64) -> (RoomState, crate::room::TransportEventData) {
    match action {
        TransportAction::Play => room.after_play(now, lead),
        TransportAction::Pause => room.after_pause(now, lead),
        TransportAction::Restart => room.after_seek(now, lead, 0, TransportAction::Restart),
        TransportAction::CueRelease => room.after_cue_release(now, lead),
        _ => (room, room.replay_event(action)),
    }
}

pub open spec fn transport_op_ready(room: RoomState, action: TransportAction, now: u64, lead: u64) -> bool {
    match action {
        TransportAction::Play => room.can_play(now, lead),
        TransportAction::Pause => room.can_pause(now, lead),
        TransportAction::Restart => room.can_jump(now, lead),
        TransportAction::CueRelease => room.can_release_cue(now, lead),
        _ => true,
    }
}

pub open spec fn transport_event(
    event_id: u128,
    request_id: String,
    connection_id: u128,
    deck: DeckId,
    action: TransportAction,
    e: crate::room::TransportEventData,
) -> ServerMessage {
    ServerMessage::TransportEvent {
        event_id,
        request_id,
        origin_connection_id: connection_id,
        deck,
        revision: e.revision,
        action,
        effective_server_time_us: e.effective_server_time_us,
        position_us: e.position_us,
        playback_rate: e.playback_rate,
    }
}

pub open spec fn setting_event(
    which: DeckSetting,
    event_id: u128,
    request_id: String,
    connection_id: u128,
    deck: DeckId,
    e: crate::room::BoolSettingEventData,
) -> ServerMessage {
    match which {
        DeckSetting::Nudge => ServerMessage::NudgeSettingChanged {
            event_id,
            request_id,
            origin_connection_id: connection_id,
            deck,
            revision: e.revision,
            enabled: e.enabled,
        },
        DeckSetting::BassCut => ServerMessage::BassCutSettingChanged {
            event_id,
            request_id,
            origin_connection_id: connection_id,
            deck,
            revision: e.revision,
            enabled: e.enabled,
        },
        DeckSetting::PitchLock => ServerMessage::PitchLockSettingChanged {
            event_id,
            request_id,
            origin_connection_id: connection_id,
            deck,
            revision: e.revision,
            enabled: e.enabled,
        },
        DeckSetting::Pfl => ServerMessage::PflSettingChanged {
            event_id,
            request_id,
            origin_connection_id: connection_id,
            deck,
            revision: e.revision,
            enabled: e.enabled,
        },
    }
}

/// What a boolean setting change announces: the new value, or nothing when
/// the setting already had that value.
pub open spec fn setting_announcement(
    which: DeckSetting,
    event_id: u128,
    request_id: String,
    connection_id: u128,
    deck: DeckId,
    e: crate::room::BoolSettingEventData,
) -> Option<ServerMessage> {
    if e.idempotent_replay {
        None
    } else {
        Some(setting_event(which, event_id, request_id, connection_id, deck, e))
    }
}

pub open spec fn cue_point_event(
    event_id: u128,
    request_id: String,
    connection_id: u128,
    deck: DeckId,
    e: crate::room::CuePointEventData,
) -> ServerMessage {
    ServerMessage::CuePointChanged {
        event_id,
        request_id,
        origin_connection_id: connection_id,
        deck,
        revision: e.revision,
        position_us: e.position_us,
    }
}

pub open spec fn loop_event(
    event_id: u128,
    request_id: String,
    connection_id: u128,
    deck: DeckId,
    e: crate::room::LoopEventData,
) -> ServerMessage {
    ServerMessage::LoopChanged {
        event_id,
        request_id,
        origin_connection_id: connection_id,
        deck,
        revision: e.revision,
        start_us: e.start_us,
        end_us: e.end_us,
        active: e.active,
    }
}

/// The session after a deck-level message: the request id recorded, the
/// target deck replaced, everything else as it was.
pub open spec fn deck_moved(old: Session, new: Session, request_id: Seq<char>, deck: DeckId, next: RoomState) -> bool {
    &&& new.seen_requests@ == after_record(old.seen_requests@, request_id)
    &&& new.deck(deck) == next
    &&& new.deck(other_deck(deck)) == old.deck(other_deck(deck))
    &&& new.crossfader == old.crossfader
    &&& new.schedule_lead_time_us == old.schedule_lead_time_us
}

/// The session after a crossfader message.
pub open spec fn crossfader_moved(old: Session, new: Session, request_id: Seq<char>, next: CrossfaderState) -> bool {
    &&& new.seen_requests@ == after_record(old.seen_requests@, request_id)
    &&& new.deck_a == old.deck_a
    &&& new.deck_b == old.deck_b
    &&& new.crossfader == next
    &&& new.schedule_lead_time_us == old.schedule_lead_time_us
}

/// A deck-level message that leads to at most one broadcast event.
pub open spec fn optional_event_step(
    old: Session,
    new: Session,
    request_id: Seq<char>,
    deck: DeckId,
    next: RoomState,
    event: Option<ServerMessage>,
    direct: Seq<ServerMessage>,
    broadcast: Seq<ServerMessage>,
) -> bool {
    &&& deck_moved(old, new, request_id, deck, next)
    &&& direct == Seq::<ServerMessage>::empty()
    &&& broadcast == match event {
        None => Seq::<ServerMessage>::empty(),
        Some(m) => seq![m],
    }
}

impl Session {
    /// Only validated requests are remembered, within the cache's limits.
    pub open spec fn wf(self) -> bool {
        self.seen_requests.wf() && self.seen_requests.ids_not_blank()
    }

    pub open spec fn deck(self, deck: DeckId) -> RoomState {
        match deck {
            DeckId::A => self.deck_a,
            DeckId::B => self.deck_b,
        }
    }

    /// The full state as sent to a client, stamped with `server_time_us`.
    pub open spec fn snapshot_at(self, server_time_us: u64) -> ServerMessage {
        ServerMessage::StateSnapshot {
            server_time_us,
            crossfader_revision: self.crossfader.revision,
            crossfader_position: self.crossfader.position,
            crossfader_curve_shape: self.crossfader.curve_shape,
            deck_a: self.deck_a.dto(),
            deck_b: self.deck_b.dto(),
        }
    }

    /// The request id of `message` has been seen recently.
    pub open spec fn is_duplicate(self, message: ClientMessage) -> bool {
        self.seen_requests@.contains(message.rid()@)
    }

    /// Applying an accepted, not yet seen message at `now` stays within the
    /// integer ranges of the counters and positions it touches.
    pub open spec fn fresh_ready(self, message: ClientMessage, now: u64) -> bool {
        let lead = self.schedule_lead_time_us;
        match message {
            ClientMessage::TransportRequest { deck, action, .. } => transport_op_ready(
                self.deck(deck),
                action,
                now,
                lead,
            ),
            ClientMessage::SetNudgeEnabled { deck, enabled, .. } => self.deck(deck).can_set(
                DeckSetting::Nudge,
                enabled,
            ),
            ClientMessage::SetBassCutEnabled { deck, enabled, .. } => self.deck(deck).can_set(
                DeckSetting::BassCut,
                enabled,
            ),
            ClientMessage::SetPitchLockEnabled { deck, enabled, .. } => self.deck(deck).can_set(
                DeckSetting::PitchLock,
                enabled,
            ),
            ClientMessage::SetPflEnabled { deck, enabled, .. } => self.deck(deck).can_set(
                DeckSetting::Pfl,
                enabled,
            ),
            ClientMessage::SetTempoRequest { deck, playback_rate, .. } => self.deck(
                deck,
            ).can_change_rate(now, TEMPO_SAMPLE_LEAD_TIME_US, playback_rate as u64),
            ClientMessage::SeekRequest { deck, .. } => self.deck(deck).can_jump(now, lead),
            ClientMessage::SetCuePoint { deck, .. } => self.deck(deck).revision < u64::MAX,
            ClientMessage::RemoveCuePoint { deck, .. } => self.deck(deck).cue_point_us is None
                || self.deck(deck).revision < u64::MAX,
            ClientMessage::SetLoop { deck, .. } => self.deck(deck).revision < u64::MAX - 1,
            ClientMessage::SetLoopActive { deck, .. } => self.deck(deck).loop_region is None
                || self.deck(deck).revision < u64::MAX,
            ClientMessage::RemoveLoop { deck, .. } => self.deck(deck).loop_region is None
                || self.deck(deck).revision < u64::MAX,
            ClientMessage::SetCrossfaderPosition { position, .. } => self.crossfader.position
                == position as u64 || self.crossfader.revision < u64::MAX,
            ClientMessage::SetCrossfaderCurve { shape, .. } => self.crossfader.curve_shape
                == shape as u64 || self.crossfader.revision < u64::MAX,
            _ => true,
        }
    }

    /// Handling `message` received at `now` does not overflow: it is
    /// rejected, needs no state, is a duplicate, or fits the ranges.
    pub open spec fn can_apply(self, message: ClientMessage, now: u64) -> bool {
        ||| message.rejection(message.request_id_blank()) is Some
        ||| message is ClockRequest
        ||| message is StateRequest
        ||| self.is_duplicate(message)
        ||| self.fresh_ready(message, now)
    }

    /// What an accepted message that has not been seen recently does.
    pub open spec fn fresh_step(
        self,
        message: ClientMessage,
        connection_id: u128,
        now: u64,
        event_ids: (u128, u128),
        new: Session,
        direct: Seq<ServerMessage>,
        broadcast: Seq<ServerMessage>,
    ) -> bool {
        let lead = self.schedule_lead_time_us;
        let id = event_ids.0;
        match message {
            ClientMessage::TransportRequest { request_id, deck, action } => {
                if action is Seek || action is SetTempo {
                    &&& new.seen_requests@ == after_record(self.seen_requests@, request_id@)
                    &&& new.deck_a == self.deck_a
                    &&& new.deck_b == self.deck_b
                    &&& new.crossfader == self.crossfader
                    &&& new.schedule_lead_time_us == self.schedule_lead_time_us
                    &&& broadcast == Seq::<ServerMessage>::empty()
                    &&& direct.len() == 1
                    &&& is_rejection(
                        direct[0],
                        Some(request_id@),
                        if action is Seek {
                            SEEK_VIA_TRANSPORT_MESSAGE@
                        } else {
                            SET_TEMPO_VIA_TRANSPORT_MESSAGE@
                        },
                    )
                } else {
                    let (next, e) = transport_op(self.deck(deck), action, now, lead);
                    optional_event_step(
                        self,
                        new,
                        request_id@,
                        deck,
                        next,
                        Some(transport_event(id, request_id, connection_id, deck, action, e)),
                        direct,
                        broadcast,
                    )
                }
            },
            ClientMessage::SetNudgeEnabled { request_id, deck, enabled } => {
                let (next, e) = self.deck(deck).after_setting(DeckSetting::Nudge, enabled);
                optional_event_step(
                    self,
                    new,
                    request_id@,
                    deck,
                    next,
                    setting_announcement(DeckSetting::Nudge, id, request_id, connection_id, deck, e),
                    direct,
                    broadcast,
                )
            },
            ClientMessage::SetBassCutEnabled { request_id, deck, enabled } => {
                let (next, e) = self.deck(deck).after_setting(DeckSetting::BassCut, enabled);
                optional_event_step(
                    self,
                    new,
                    request_id@,
                    deck,
                    next,
                    setting_announcement(DeckSetting::BassCut, id, request_id, connection_id, deck, e),
                    direct,
                    broadcast,
                )
            },
            ClientMessage::SetPitchLockEnabled { request_id, deck, enabled } => {
                let (next, e) = self.deck(deck).after_setting(DeckSetting::PitchLock, enabled);
                optional_event_step(
                    self,
                    new,
                    request_id@,
                    deck,
                    next,
                    setting_announcement(DeckSetting::PitchLock, id, request_id, connection_id, deck, e),
                    direct,
                    broadcast,
                )
            },
            ClientMessage::SetPflEnabled { request_id, deck, enabled } => {
                let (next, e) = self.deck(deck).after_setting(DeckSetting::Pfl, enabled);
                optional_event_step(
                    self,
                    new,
                    request_id@,
                    deck,
                    next,
                    setting_announcement(DeckSetting::Pfl, id, request_id, connection_id, deck, e),
                    direct,
                    broadcast,
                )
            },
            ClientMessage::SetTempoRequest { request_id, deck, playback_rate } => {
                let (next, e) = self.deck(deck).after_rate_change(
                    now,
                    TEMPO_SAMPLE_LEAD_TIME_US,
                    playback_rate as u64,
                );
                optional_event_step(
                    self,
                    new,
                    request_id@,
                    deck,
                    next,
                    Some(transport_event(id, request_id, connection_id, deck, e.action, e)),
                    direct,
                    broadcast,
                )
            },
            ClientMessage::SeekRequest { request_id, deck, position_us } => {
                let (next, e) = self.deck(deck).after_seek(
                    now,
                    lead,
                    position_us,
                    TransportAction::Seek,
                );
                optional_event_step(
                    self,
                    new,
                    request_id@,
                    deck,
                    next,
                    Some(transport_event(id, request_id, connection_id, deck, e.action, e)),
                    direct,
                    broadcast,
                )
            },
            ClientMessage::SetCuePoint { request_id, deck, position_us } => {
                let (next, e) = self.deck(deck).after_set_cue_point(position_us);
                optional_event_step(
                    self,
                    new,
                    request_id@,
                    deck,
                    next,
                    Some(cue_point_event(id, request_id, connection_id, deck, e)),
                    direct,
                    broadcast,
                )
            },
            ClientMessage::RemoveCuePoint { request_id, deck } => {
                let (next, e) = self.deck(deck).after_remove_cue_point();
                optional_event_step(
                    self,
                    new,
                    request_id@,
                    deck,
                    next,
                    match e {
                        None => None,
                        Some(r) => Some(
                            ServerMessage::CuePointRemoved {
                                event_id: id,
                                request_id,
                                origin_connection_id: connection_id,
                                deck,
                                revision: r.revision,
                            },
                        ),
                    },
                    direct,
                    broadcast,
                )
            },
            ClientMessage::SetLoop { request_id, deck, start_us, end_us } => {
                let (next, cue, lp) = self.deck(deck).after_set_loop(start_us, end_us);
                &&& deck_moved(self, new, request_id@, deck, next)
                &&& direct == Seq::<ServerMessage>::empty()
                &&& broadcast == seq![
                    cue_point_event(id, request_id, connection_id, deck, cue),
                    loop_event(event_ids.1, request_id, connection_id, deck, lp),
                ]
            },
            ClientMessage::SetLoopActive { request_id, deck, active } => {
                let (next, e) = self.deck(deck).after_set_loop_active(active);
                optional_event_step(
                    self,
                    new,
                    request_id@,
                    deck,
                    next,
                    match e {
                        None => None,
                        Some(l) => Some(loop_event(id, request_id, connection_id, deck, l)),
                    },
                    direct,
                    broadcast,
                )
            },
            ClientMessage::RemoveLoop { request_id, deck } => {
                let (next, e) = self.deck(deck).after_remove_loop();
                optional_event_step(
                    self,
                    new,
                    request_id@,
                    deck,
                    next,
                    match e {
                        None => None,
                        Some(r) => Some(
                            ServerMessage::LoopRemoved {
                                event_id: id,
                                request_id,
                                origin_connection_id: connection_id,
                                deck,
                                revision: r.revision,
                            },
                        ),
                    },
                    direct,
                    broadcast,
                )
            },
            ClientMessage::SetCrossfaderPosition { request_id, position } => {
                let (next, e) = self.crossfader.after_set_position(position as u64);
                &&& crossfader_moved(self, new, request_id@, next)
                &&& direct == Seq::<ServerMessage>::empty()
                &&& broadcast == seq![
                    ServerMessage::CrossfaderPositionChanged {
                        event_id: id,
                        request_id,
                        origin_connection_id: connection_id,
                        revision: e.revision,
                        position: e.value,
                    },
                ]
            },
            ClientMessage::SetCrossfaderCurve { request_id, shape } => {
                let (next, e) = self.crossfader.after_set_curve_shape(shape as u64);
                &&& crossfader_moved(self, new, request_id@, next)
                &&& direct == Seq::<ServerMessage>::empty()
                &&& broadcast == seq![
                    ServerMessage::CrossfaderCurveChanged {
                        event_id: id,
                        request_id,
                        origin_connection_id: connection_id,
                        revision: e.revision,
                        shape: e.value,
                    },
                ]
            },
            _ => false,
        }
    }

    /// What handling `message` from `connection_id` does: the message was
    /// received at `received_us`, a clock answer is stamped `replied_us`,
    /// and new broadcast events take their ids from `event_ids`.
    /// A rejected message is answered with one error and changes nothing;
    /// a clock request is answered with the client's own timestamp and the
    /// two server times; a state request is answered with a snapshot; a
    /// request id seen recently is ignored; anything else is recorded,
    /// applied to its deck (or the crossfader) and broadcast.
    pub open spec fn step(
        self,
        message: ClientMessage,
        connection_id: u128,
        received_us: u64,
        replied_us: u64,
        event_ids: (u128, u128),
        new: Session,
        direct: Seq<ServerMessage>,
        broadcast: Seq<ServerMessage>,
    ) -> bool {
        match message.rejection(message.request_id_blank()) {
            Some(reason) => {
                &&& new == self
                &&& broadcast == Seq::<ServerMessage>::empty()
                &&& direct.len() == 1
                &&& is_rejection(direct[0], Some(message.rid()@), reason)
            },
            None => match message {
                ClientMessage::ClockRequest { request_id, client_send_time_ms_bits } => {
                    &&& new == self
                    &&& broadcast == Seq::<ServerMessage>::empty()
                    &&& direct == seq![
                        ServerMessage::ClockResponse {
                            request_id,
                            client_send_time_ms_bits,
                            server_receive_time_us: received_us,
                            server_send_time_us: replied_us,
                        },
                    ]
                },
                ClientMessage::StateRequest { .. } => {
                    &&& new == self
                    &&& broadcast == Seq::<ServerMessage>::empty()
                    &&& direct == seq![self.snapshot_at(received_us)]
                },
                _ => if self.is_duplicate(message) {
                    &&& new == self
                    &&& broadcast == Seq::<ServerMessage>::empty()
                    &&& direct == Seq::<ServerMessage>::empty()
                } else {
                    self.fresh_step(
                        message,
                        connection_id,
                        received_us,
                        event_ids,
                        new,
                        direct,
                        broadcast,
                    )
                },
            },
        }
    }
}

} // verus!

verus! {

fn no_messages() -> (v: Vec<ServerMessage>)
    ensures
        v@ == Seq::<ServerMessage>::empty(),
{
    Vec::new()
}

fn one_message(m: ServerMessage) -> (v: Vec<ServerMessage>)
    ensures
        v@ == seq![m],
{
    let mut v = Vec::new();
    v.push(m);
    assert(v@ =~= seq![m]);
    v
}

fn two_messages(a: ServerMessage, b: ServerMessage) -> (v: Vec<ServerMessage>)
    ensures
        v@ == seq![a, b],
{
    let mut v = Vec::new();
    v.push(a);
    v.push(b);
    assert(v@ =~= seq![a, b]);
    v
}

fn broadcast_only(m: ServerMessage) -> (out: Outcome)
    ensures
        out.direct@ == Seq::<ServerMessage>::empty(),
        out.broadcast@ == seq![m],
{
    Outcome { direct: no_messages(), broadcast: one_message(m) }
}

fn silent() -> (out: Outcome)
    ensures
        out.direct@ == Seq::<ServerMessage>::empty(),
        out.broadcast@ == Seq::<ServerMessage>::empty(),
{
    Outcome { direct: no_messages(), broadcast: no_messages() }
}

/// An `invalid_message` error for the sender.
fn rejection(request_id: Option<String>, reason: &str) -> (m: ServerMessage)
    ensures
        m matches ServerMessage::Error { request_id: r, code, message } && r == request_id
            && code@ == INVALID_MESSAGE_CODE@ && message@ == reason@,
{
    ServerMessage::Error {
        request_id,
        code: INVALID_MESSAGE_CODE.to_owned(),
        message: reason.to_owned(),
    }
}

/// The answer to a message that could not be parsed at all: an
/// `invalid_message` error without a request id, whose text starts with
/// `Could not parse message: ` followed by `detail`.
pub fn unparsable_message_error(detail: &str) -> (m: ServerMessage)
    ensures
        is_rejection(m, None, UNPARSABLE_MESSAGE_PREFIX@ + detail@),
{
    let mut text = UNPARSABLE_MESSAGE_PREFIX.to_owned();
    text.append(detail);
    ServerMessage::Error { request_id: None, code: INVALID_MESSAGE_CODE.to_owned(), message: text }
}

/// The session after a change confined to one deck, before any request id
/// is recorded.
pub open spec fn deck_changed(old: Session, new: Session, deck: DeckId, next: RoomState) -> bool {
    &&& new.seen_requests == old.seen_requests
    &&& new.deck(deck) == next
    &&& new.deck(other_deck(deck)) == old.deck(other_deck(deck))
    &&& new.crossfader == old.crossfader
    &&& new.schedule_lead_time_us == old.schedule_lead_time_us
}

fn run_transport(room: &mut RoomState, action: TransportAction, now: u64, lead: u64) -> (e: TransportEventData)
    requires
        transport_op_ready(*old(room), action, now, lead),
        !(action is Seek),
        !(action is SetTempo),
    ensures
        (*final(room), e) == transport_op(*old(room), action, now, lead),
{
    match action {
        TransportAction::Play => room.schedule_play(now, lead),
        TransportAction::Pause => room.schedule_pause(now, lead),
        TransportAction::Restart => room.schedule_restart(now, lead),
        _ => room.schedule_cue_release(now, lead),
    }
}

fn transport_message(
    event_id: u128,
    request_id: String,
    connection_id: u128,
    deck: DeckId,
    action: TransportAction,
    e: TransportEventData,
) -> (m: ServerMessage)
    ensures
        m == transport_event(event_id, request_id, connection_id, deck, action, e),
{
    ServerMessage::TransportEvent {
        event_id,
        request_id,
        origin_connection_id: connection_id,
        deck,
        revision: e.revision,
        action,
        effective_server_time_us: e.effective_server_time_us,
        position_us: e.position_us,
        playback_rate: e.playback_rate,
    }
}

fn setting_message(
    which: DeckSetting,
    event_id: u128,
    request_id: String,
    connection_id: u128,
    deck: DeckId,
    e: BoolSettingEventData,
) -> (m: ServerMessage)
    ensures
        m == setting_event(which, event_id, request_id, connection_id, deck, e),
{
    match which {
        DeckSetting::Nudge => ServerMessage::NudgeSettingChanged {
            event_id,
            request_id,
            origin_connection_id: connection_id,
            deck,
            revision: e.revision,
            enabled: e.enabled,
        },
        DeckSetting::BassCut => ServerMessage::BassCutSettingChanged {
            event_id,
            request_id,
            origin_connection_id: connection_id,
            deck,
            revision: e.revision,
            enabled: e.enabled,
        },
        DeckSetting::PitchLock => ServerMessage::PitchLockSettingChanged {
            event_id,
            request_id,
            origin_connection_id: connection_id,
            deck,
            revision: e.revision,
            enabled: e.enabled,
        },
        DeckSetting::Pfl => ServerMessage::PflSettingChanged {
            event_id,
            request_id,
            origin_connection_id: connection_id,
            deck,
            revision: e.revision,
            enabled: e.enabled,
        },
    }
}

fn loop_message(
    event_id: u128,
    request_id: String,
    connection_id: u128,
    deck: DeckId,
    e: crate::room::LoopEventData,
) -> (m: ServerMessage)
    ensures
        m == loop_event(event_id, request_id, connection_id, deck, e),
{
    ServerMessage::LoopChanged {
        event_id,
        request_id,
        origin_connection_id: connection_id,
        deck,
        revision: e.revision,
        start_us: e.start_us,
        end_us: e.end_us,
        active: e.active,
    }
}

fn pause_ready(room: &RoomState, now: u64, lead: u64) -> (r: bool)
    ensures
        r == room.can_pause(now, lead),
{
    now <= u64::MAX - lead && room.position_fits_at(now + lead) && room.revision < u64::MAX
}

fn transport_ready(room: &RoomState, action: TransportAction, now: u64, lead: u64) -> (r: bool)
    ensures
        r == transport_op_ready(*room, action, now, lead),
{
    match action {
        TransportAction::Play => room.transport.playing || (now <= u64::MAX - lead
            && room.position_fits_at(now) && room.revision < u64::MAX),
        TransportAction::Pause => pause_ready(room, now, lead),
        TransportAction::Restart => now <= u64::MAX - lead && room.revision < u64::MAX,
        TransportAction::CueRelease => room.cue_point_us.is_none() || (now <= u64::MAX - lead
            && room.revision < u64::MAX),
        _ => true,
    }
}

fn setting_ready(room: &RoomState, which: DeckSetting, enabled: bool) -> (r: bool)
    ensures
        r == room.can_set(which, enabled),
{
    let current = match which {
        DeckSetting::Nudge => room.nudge_enabled,
        DeckSetting::BassCut => room.bass_cut_enabled,
        DeckSetting::PitchLock => room.pitch_lock_enabled,
        DeckSetting::Pfl => room.pfl_enabled,
    };
    current == enabled || room.revision < u64::MAX
}

impl Session {
    /// A fresh room with both decks and the crossfader at their defaults.
    pub fn new(schedule_lead_time_us: u64) -> (s: Self)
        ensures
            s.wf(),
            s.deck_a == initial_room(),
            s.deck_b == initial_room(),
            s.crossfader == initial_crossfader(),
            s.schedule_lead_time_us == schedule_lead_time_us,
            s.seen_requests@ == Seq::<Seq<char>>::empty(),
    {
        Session {
            deck_a: RoomState::new(),
            deck_b: RoomState::new(),
            crossfader: CrossfaderState::new(),
            schedule_lead_time_us,
            seen_requests: SeenRequests::new(),
        }
    }

    /// The full state, stamped with `server_time_us`.
    pub fn build_snapshot(&self, server_time_us: u64) -> (m: ServerMessage)
        ensures
            m == self.snapshot_at(server_time_us),
    {
        ServerMessage::StateSnapshot {
            server_time_us,
            crossfader_revision: self.crossfader.revision,
            crossfader_position: self.crossfader.position,
            crossfader_curve_shape: self.crossfader.curve_shape,
            deck_a: self.deck_a.to_dto(),
            deck_b: self.deck_b.to_dto(),
        }
    }

    /// The welcome (stamped `welcome_time_us`) and the snapshot (stamped
    /// `snapshot_time_us`) a newly connected client is sent first.
    pub open spec fn greeting_messages(self, connection_id: u128, welcome_time_us: u64, snapshot_time_us: u64) -> Seq<ServerMessage> {
        seq![
            ServerMessage::Welcome {
                connection_id,
                server_time_us: welcome_time_us,
                schedule_lead_time_us: self.schedule_lead_time_us,
            },
            self.snapshot_at(snapshot_time_us),
        ]
    }

    /// What a newly connected client is sent first: who it is and the lead
    /// time (stamped `welcome_time_us`), then the full state (stamped
    /// `snapshot_time_us`).
    pub fn greeting(&self, connection_id: u128, welcome_time_us: u64, snapshot_time_us: u64) -> (v: Vec<ServerMessage>)
        ensures
            v@ == seq![
                ServerMessage::Welcome {
                    connection_id,
                    server_time_us: welcome_time_us,
                    schedule_lead_time_us: self.schedule_lead_time_us,
                },
                self.snapshot_at(snapshot_time_us),
            ],
    {
        let welcome = ServerMessage::Welcome {
            connection_id,
            server_time_us: welcome_time_us,
            schedule_lead_time_us: self.schedule_lead_time_us,
        };
        two_messages(welcome, self.build_snapshot(snapshot_time_us))
    }

    fn transport_request(
        &mut self,
        request_id: String,
        deck: DeckId,
        action: TransportAction,
        connection_id: u128,
        now: u64,
        event_id: u128,
    ) -> (out: Outcome)
        requires
            transport_op_ready(old(self).deck(deck), action, now, old(self).schedule_lead_time_us),
        ensures
            if action is Seek || action is SetTempo {
                &&& *final(self) == *old(self)
                &&& out.broadcast@ == Seq::<ServerMessage>::empty()
                &&& out.direct@.len() == 1
                &&& is_rejection(
                    out.direct@[0],
                    Some(request_id@),
                    if action is Seek {
                        SEEK_VIA_TRANSPORT_MESSAGE@
                    } else {
                        SET_TEMPO_VIA_TRANSPORT_MESSAGE@
                    },
                )
            } else {
                let (next, e) = transport_op(
                    old(self).deck(deck),
                    action,
                    now,
                    old(self).schedule_lead_time_us,
                );
                &&& deck_changed(*old(self), *final(self), deck, next)
                &&& out.direct@ == Seq::<ServerMessage>::empty()
                &&& out.broadcast@ == seq![
                    transport_event(event_id, request_id, connection_id, deck, action, e),
                ]
            },
    {
        if let TransportAction::SetTempo = action {
            let m = rejection(Some(request_id), SET_TEMPO_VIA_TRANSPORT_MESSAGE);
            return Outcome { direct: one_message(m), broadcast: no_messages() };
        }
        if let TransportAction::Seek = action {
            let m = rejection(Some(request_id), SEEK_VIA_TRANSPORT_MESSAGE);
            return Outcome { direct: one_message(m), broadcast: no_messages() };
        }
        let lead = self.schedule_lead_time_us;
        let e = match deck {
            DeckId::A => run_transport(&mut self.deck_a, action, now, lead),
            DeckId::B => run_transport(&mut self.deck_b, action, now, lead),
        };
        broadcast_only(
            ServerMessage::TransportEvent {
                event_id,
                request_id,
                origin_connection_id: connection_id,
                deck,
                revision: e.revision,
                action,
                effective_server_time_us: e.effective_server_time_us,
                position_us: e.position_us,
                playback_rate: e.playback_rate,
            },
        )
    }

    fn setting_request(
        &mut self,
        which: DeckSetting,
        request_id: String,
        deck: DeckId,
        enabled: bool,
        connection_id: u128,
        event_id: u128,
    ) -> (out: Outcome)
        requires
            old(self).deck(deck).can_set(which, enabled),
        ensures
            ({
                let (next, e) = old(self).deck(deck).after_setting(which, enabled);
                &&& deck_changed(*old(self), *final(self), deck, next)
                &&& out.direct@ == Seq::<ServerMessage>::empty()
                &&& out.broadcast@ == match setting_announcement(
                    which,
                    event_id,
                    request_id,
                    connection_id,
                    deck,
                    e,
                ) {
                    None => Seq::<ServerMessage>::empty(),
                    Some(m) => seq![m],
                }
            }),
    {
        let e = match deck {
            DeckId::A => self.deck_a.set_setting(which, enabled),
            DeckId::B => self.deck_b.set_setting(which, enabled),
        };
        if e.idempotent_replay {
            return silent();
        }
        broadcast_only(setting_message(which, event_id, request_id, connection_id, deck, e))
    }

    fn tempo_request(
        &mut self,
        request_id: String,
        deck: DeckId,
        rate: u64,
        connection_id: u128,
        now: u64,
        event_id: u128,
    ) -> (out: Outcome)
        requires
            old(self).deck(deck).can_change_rate(now, TEMPO_SAMPLE_LEAD_TIME_US, rate),
        ensures
            ({
                let (next, e) = old(self).deck(deck).after_rate_change(
                    now,
                    TEMPO_SAMPLE_LEAD_TIME_US,
                    rate,
                );
                &&& deck_changed(*old(self), *final(self), deck, next)
                &&& out.direct@ == Seq::<ServerMessage>::empty()
                &&& out.broadcast@ == seq![
                    transport_event(event_id, request_id, connection_id, deck, e.action, e),
                ]
            }),
    {
        let e = match deck {
            DeckId::A => self.deck_a.schedule_playback_rate(now, TEMPO_SAMPLE_LEAD_TIME_US, rate),
            DeckId::B => self.deck_b.schedule_playback_rate(now, TEMPO_SAMPLE_LEAD_TIME_US, rate),
        };
        broadcast_only(transport_message(event_id, request_id, connection_id, deck, e.action, e))
    }

    fn seek_request(
        &mut self,
        request_id: String,
        deck: DeckId,
        position_us: u64,
        connection_id: u128,
        now: u64,
        event_id: u128,
    ) -> (out: Outcome)
        requires
            old(self).deck(deck).can_jump(now, old(self).schedule_lead_time_us),
        ensures
            ({
                let (next, e) = old(self).deck(deck).after_seek(
                    now,
                    old(self).schedule_lead_time_us,
                    position_us,
                    TransportAction::Seek,
                );
                &&& deck_changed(*old(self), *final(self), deck, next)
                &&& out.direct@ == Seq::<ServerMessage>::empty()
                &&& out.broadcast@ == seq![
                    transport_event(event_id, request_id, connection_id, deck, e.action, e),
                ]
            }),
    {
        let lead = self.schedule_lead_time_us;
        let e = match deck {
            DeckId::A => self.deck_a.schedule_seek(now, lead, position_us),
            DeckId::B => self.deck_b.schedule_seek(now, lead, position_us),
        };
        broadcast_only(transport_message(event_id, request_id, connection_id, deck, e.action, e))
    }

    fn cue_point_request(
        &mut self,
        request_id: String,
        deck: DeckId,
        position_us: u64,
        connection_id: u128,
        event_id: u128,
    ) -> (out: Outcome)
        requires
            old(self).deck(deck).revision < u64::MAX,
        ensures
            ({
                let (next, e) = old(self).deck(deck).after_set_cue_point(position_us);
                &&& deck_changed(*old(self), *final(self), deck, next)
                &&& out.direct@ == Seq::<ServerMessage>::empty()
                &&& out.broadcast@ == seq![
                    cue_point_event(event_id, request_id, connection_id, deck, e),
                ]
            }),
    {
        let e = match deck {
            DeckId::A => self.deck_a.set_cue_point(position_us),
            DeckId::B => self.deck_b.set_cue_point(position_us),
        };
        broadcast_only(
            ServerMessage::CuePointChanged {
                event_id,
                request_id,
                origin_connection_id: connection_id,
                deck,
                revision: e.revision,
                position_us: e.position_us,
            },
        )
    }

    fn remove_cue_point_request(
        &mut self,
        request_id: String,
        deck: DeckId,
        connection_id: u128,
        event_id: u128,
    ) -> (out: Outcome)
        requires
            old(self).deck(deck).cue_point_us is None || old(self).deck(deck).revision < u64::MAX,
        ensures
            ({
                let (next, e) = old(self).deck(deck).after_remove_cue_point();
                &&& deck_changed(*old(self), *final(self), deck, next)
                &&& out.direct@ == Seq::<ServerMessage>::empty()
                &&& out.broadcast@ == match e {
                    None => Seq::<ServerMessage>::empty(),
                    Some(r) => seq![
                        ServerMessage::CuePointRemoved {
                            event_id,
                            request_id,
                            origin_connection_id: connection_id,
                            deck,
                            revision: r.revision,
                        },
                    ],
                }
            }),
    {
        let e = match deck {
            DeckId::A => self.deck_a.remove_cue_point(),
            DeckId::B => self.deck_b.remove_cue_point(),
        };
        match e {
            None => silent(),
            Some(r) => broadcast_only(
                ServerMessage::CuePointRemoved {
                    event_id,
                    request_id,
                    origin_connection_id: connection_id,
                    deck,
                    revision: r.revision,
                },
            ),
        }
    }

    fn loop_request(
        &mut self,
        request_id: String,
        deck: DeckId,
        start_us: u64,
        end_us: u64,
        connection_id: u128,
        event_ids: (u128, u128),
    ) -> (out: Outcome)
        requires
            old(self).deck(deck).revision < u64::MAX - 1,
        ensures
            ({
                let (next, cue, lp) = old(self).deck(deck).after_set_loop(start_us, end_us);
                &&& deck_changed(*old(self), *final(self), deck, next)
                &&& out.direct@ == Seq::<ServerMessage>::empty()
                &&& out.broadcast@ == seq![
                    cue_point_event(event_ids.0, request_id, connection_id, deck, cue),
                    loop_event(event_ids.1, request_id, connection_id, deck, lp),
                ]
            }),
    {
        let (cue, lp) = match deck {
            DeckId::A => self.deck_a.set_loop(start_us, end_us),
            DeckId::B => self.deck_b.set_loop(start_us, end_us),
        };
        let cue_message = ServerMessage::CuePointChanged {
            event_id: event_ids.0,
            request_id: request_id.clone(),
            origin_connection_id: connection_id,
            deck,
            revision: cue.revision,
            position_us: cue.position_us,
        };
        let loop_message = loop_message(event_ids.1, request_id, connection_id, deck, lp);
        Outcome { direct: no_messages(), broadcast: two_messages(cue_message, loop_message) }
    }

    fn loop_active_request(
        &mut self,
        request_id: String,
        deck: DeckId,
        active: bool,
        connection_id: u128,
        event_id: u128,
    ) -> (out: Outcome)
        requires
            old(self).deck(deck).loop_region is None || old(self).deck(deck).revision < u64::MAX,
        ensures
            ({
                let (next, e) = old(self).deck(deck).after_set_loop_active(active);
                &&& deck_changed(*old(self), *final(self), deck, next)
                &&& out.direct@ == Seq::<ServerMessage>::empty()
                &&& out.broadcast@ == match e {
                    None => Seq::<ServerMessage>::empty(),
                    Some(l) => seq![loop_event(event_id, request_id, connection_id, deck, l)],
                }
            }),
    {
        let e = match deck {
            DeckId::A => self.deck_a.set_loop_active(active),
            DeckId::B => self.deck_b.set_loop_active(active),
        };
        match e {
            None => silent(),
            Some(l) => broadcast_only(loop_message(event_id, request_id, connection_id, deck, l)),
        }
    }

    fn remove_loop_request(
        &mut self,
        request_id: String,
        deck: DeckId,
        connection_id: u128,
        event_id: u128,
    ) -> (out: Outcome)
        requires
            old(self).deck(deck).loop_region is None || old(self).deck(deck).revision < u64::MAX,
        ensures
            ({
                let (next, e) = old(self).deck(deck).after_remove_loop();
                &&& deck_changed(*old(self), *final(self), deck, next)
                &&& out.direct@ == Seq::<ServerMessage>::empty()
                &&& out.broadcast@ == match e {
                    None => Seq::<ServerMessage>::empty(),
                    Some(r) => seq![
                        ServerMessage::LoopRemoved {
                            event_id,
                            request_id,
                            origin_connection_id: connection_id,
                            deck,
                            revision: r.revision,
                        },
                    ],
                }
            }),
    {
        let e = match deck {
            DeckId::A => self.deck_a.remove_loop(),
            DeckId::B => self.deck_b.remove_loop(),
        };
        match e {
            None => silent(),
            Some(r) => broadcast_only(
                ServerMessage::LoopRemoved {
                    event_id,
                    request_id,
                    origin_connection_id: connection_id,
                    deck,
                    revision: r.revision,
                },
            ),
        }
    }

    fn crossfader_position_request(
        &mut self,
        request_id: String,
        position: u64,
        connection_id: u128,
        event_id: u128,
    ) -> (out: Outcome)
        requires
            old(self).crossfader.position == position || old(self).crossfader.revision < u64::MAX,
        ensures
            ({
                let (next, e) = old(self).crossfader.after_set_position(position);
                &&& final(self).seen_requests == old(self).seen_requests
                &&& final(self).deck_a == old(self).deck_a
                &&& final(self).deck_b == old(self).deck_b
                &&& final(self).crossfader == next
                &&& final(self).schedule_lead_time_us == old(self).schedule_lead_time_us
                &&& out.direct@ == Seq::<ServerMessage>::empty()
                &&& out.broadcast@ == seq![
                    ServerMessage::CrossfaderPositionChanged {
                        event_id,
                        request_id,
                        origin_connection_id: connection_id,
                        revision: e.revision,
                        position: e.value,
                    },
                ]
            }),
    {
        let e = self.crossfader.set_position(position);
        broadcast_only(
            ServerMessage::CrossfaderPositionChanged {
                event_id,
                request_id,
                origin_connection_id: connection_id,
                revision: e.revision,
                position: e.value,
            },
        )
    }

    fn crossfader_curve_request(
        &mut self,
        request_id: String,
        shape: u64,
        connection_id: u128,
        event_id: u128,
    ) -> (out: Outcome)
        requires
            old(self).crossfader.curve_shape == shape || old(self).crossfader.revision < u64::MAX,
        ensures
            ({
                let (next, e) = old(self).crossfader.after_set_curve_shape(shape);
                &&& final(self).seen_requests == old(self).seen_requests
                &&& final(self).deck_a == old(self).deck_a
                &&& final(self).deck_b == old(self).deck_b
                &&& final(self).crossfader == next
                &&& final(self).schedule_lead_time_us == old(self).schedule_lead_time_us
                &&& out.direct@ == Seq::<ServerMessage>::empty()
                &&& out.broadcast@ == seq![
                    ServerMessage::CrossfaderCurveChanged {
                        event_id,
                        request_id,
                        origin_connection_id: connection_id,
                        revision: e.revision,
                        shape: e.value,
                    },
                ]
            }),
    {
        let e = self.crossfader.set_curve_shape(shape);
        broadcast_only(
            ServerMessage::CrossfaderCurveChanged {
                event_id,
                request_id,
                origin_connection_id: connection_id,
                revision: e.revision,
                shape: e.value,
            },
        )
    }

    /// Records an accepted, not yet seen message's request id and applies it.
    #[verifier::rlimit(60)]
    #[verifier::spinoff_prover]
    fn apply_fresh(
        &mut self,
        message: ClientMessage,
        connection_id: u128,
        now: u64,
        event_ids: (u128, u128),
    ) -> (out: Outcome)
        requires
            old(self).wf(),
            message.rejection(message.request_id_blank()) is None,
            !(message is ClockRequest),
            !(message is StateRequest),
            !old(self).is_duplicate(message),
            old(self).fresh_ready(message, now),
        ensures
            final(self).wf(),
            old(self).fresh_step(
                message,
                connection_id,
                now,
                event_ids,
                *final(self),
                out.direct@,
                out.broadcast@,
            ),
    {
        assert(trimmed(message.rid()@).len() != 0);
        let _ = self.seen_requests.check_and_record(message.request_id());
        assert(self.wf());
        let id = event_ids.0;
        match message {
            ClientMessage::TransportRequest { request_id, deck, action } => {
                self.transport_request(request_id, deck, action, connection_id, now, id)
            },
            ClientMessage::SetNudgeEnabled { request_id, deck, enabled } => {
                self.setting_request(DeckSetting::Nudge, request_id, deck, enabled, connection_id, id)
            },
            ClientMessage::SetBassCutEnabled { request_id, deck, enabled } => {
                self.setting_request(DeckSetting::BassCut, request_id, deck, enabled, connection_id, id)
            },
            ClientMessage::SetPitchLockEnabled { request_id, deck, enabled } => {
                self.setting_request(DeckSetting::PitchLock, request_id, deck, enabled, connection_id, id)
            },
            ClientMessage::SetPflEnabled { request_id, deck, enabled } => {
                self.setting_request(DeckSetting::Pfl, request_id, deck, enabled, connection_id, id)
            },
            ClientMessage::SetTempoRequest { request_id, deck, playback_rate } => {
                self.tempo_request(request_id, deck, playback_rate as u64, connection_id, now, id)
            },
            ClientMessage::SeekRequest { request_id, deck, position_us } => {
                self.seek_request(request_id, deck, position_us, connection_id, now, id)
            },
            ClientMessage::SetCuePoint { request_id, deck, position_us } => {
                self.cue_point_request(request_id, deck, position_us, connection_id, id)
            },
            ClientMessage::RemoveCuePoint { request_id, deck } => {
                self.remove_cue_point_request(request_id, deck, connection_id, id)
            },
            ClientMessage::SetLoop { request_id, deck, start_us, end_us } => {
                self.loop_request(request_id, deck, start_us, end_us, connection_id, event_ids)
            },
            ClientMessage::SetLoopActive { request_id, deck, active } => {
                self.loop_active_request(request_id, deck, active, connection_id, id)
            },
            ClientMessage::RemoveLoop { request_id, deck } => {
                self.remove_loop_request(request_id, deck, connection_id, id)
            },
            ClientMessage::SetCrossfaderPosition { request_id, position } => {
                self.crossfader_position_request(request_id, position as u64, connection_id, id)
            },
            ClientMessage::SetCrossfaderCurve { request_id, shape } => {
                self.crossfader_curve_request(request_id, shape as u64, connection_id, id)
            },
            ClientMessage::ClockRequest { .. } => silent(),
            ClientMessage::StateRequest { .. } => silent(),
        }
    }

    /// Handles one parsed client message (see `step`): the message was
    /// received at `received_us`, a clock answer is stamped `replied_us`, and
    /// new broadcast events take their ids from `event_ids`.
    pub fn apply(
        &mut self,
        message: ClientMessage,
        connection_id: u128,
        received_us: u64,
        replied_us: u64,
        event_ids: (u128, u128),
    ) -> (out: Outcome)
        requires
            old(self).wf(),
            old(self).can_apply(message, received_us),
        ensures
            final(self).wf(),
            old(self).step(
                message,
                connection_id,
                received_us,
                replied_us,
                event_ids,
                *final(self),
                out.direct@,
                out.broadcast@,
            ),
    {
        if let Err(reason) = message.validate() {
            let m = rejection(Some(message.request_id().to_owned()), reason.as_str());
            return Outcome { direct: one_message(m), broadcast: no_messages() };
        }
        match message {
            ClientMessage::ClockRequest { request_id, client_send_time_ms_bits } => {
                let m = ServerMessage::ClockResponse {
                    request_id,
                    client_send_time_ms_bits,
                    server_receive_time_us: received_us,
                    server_send_time_us: replied_us,
                };
                Outcome { direct: one_message(m), broadcast: no_messages() }
            },
            ClientMessage::StateRequest { .. } => {
                Outcome { direct: one_message(self.build_snapshot(received_us)), broadcast: no_messages() }
            },
            other => {
                if self.seen_requests.contains(other.request_id()) {
                    return silent();
                }
                self.apply_fresh(other, connection_id, received_us, event_ids)
            },
        }
    }

    /// Whether handling `message` received at `now` stays within the
    /// integer ranges it touches (see `can_apply`).
    pub fn can_apply_at(&self, message: &ClientMessage, now: u64) -> (r: bool)
        ensures
            r == self.can_apply(*message, now),
    {
        if message.validate().is_err() {
            return true;
        }
        if self.seen_requests.contains(message.request_id()) {
            return true;
        }
        let lead = self.schedule_lead_time_us;
        match message {
            ClientMessage::ClockRequest { .. } => true,
            ClientMessage::StateRequest { .. } => true,
            ClientMessage::TransportRequest { deck, action, .. } => {
                transport_ready(self.deck_ref(*deck), *action, now, lead)
            },
            ClientMessage::SetNudgeEnabled { deck, enabled, .. } => {
                setting_ready(self.deck_ref(*deck), DeckSetting::Nudge, *enabled)
            },
            ClientMessage::SetBassCutEnabled { deck, enabled, .. } => {
                setting_ready(self.deck_ref(*deck), DeckSetting::BassCut, *enabled)
            },
            ClientMessage::SetPitchLockEnabled { deck, enabled, .. } => {
                setting_ready(self.deck_ref(*deck), DeckSetting::PitchLock, *enabled)
            },
            ClientMessage::SetPflEnabled { deck, enabled, .. } => {
                setting_ready(self.deck_ref(*deck), DeckSetting::Pfl, *enabled)
            },
            ClientMessage::SetTempoRequest { deck, playback_rate, .. } => {
                let room = self.deck_ref(*deck);
                room.transport.playback_rate == *playback_rate as u64 || pause_ready(
                    room,
                    now,
                    TEMPO_SAMPLE_LEAD_TIME_US,
                )
            },
            ClientMessage::SeekRequest { deck, .. } => {
                let room = self.deck_ref(*deck);
                now <= u64::MAX - lead && room.revision < u64::MAX
            },
            ClientMessage::SetCuePoint { deck, .. } => self.deck_ref(*deck).revision < u64::MAX,
            ClientMessage::RemoveCuePoint { deck, .. } => {
                let room = self.deck_ref(*deck);
                room.cue_point_us.is_none() || room.revision < u64::MAX
            },
            ClientMessage::SetLoop { deck, .. } => self.deck_ref(*deck).revision < u64::MAX - 1,
            ClientMessage::SetLoopActive { deck, .. } => {
                let room = self.deck_ref(*deck);
                room.loop_region.is_none() || room.revision < u64::MAX
            },
            ClientMessage::RemoveLoop { deck, .. } => {
                let room = self.deck_ref(*deck);
                room.loop_region.is_none() || room.revision < u64::MAX
            },
            ClientMessage::SetCrossfaderPosition { position, .. } => {
                self.crossfader.position == *position as u64 || self.crossfader.revision < u64::MAX
            },
            ClientMessage::SetCrossfaderCurve { shape, .. } => {
                self.crossfader.curve_shape == *shape as u64 || self.crossfader.revision
                    < u64::MAX
            },
        }
    }

    fn deck_ref(&self, deck: DeckId) -> (r: &RoomState)
        ensures
            *r == self.deck(deck),
    {
        match deck {
            DeckId::A => &self.deck_a,
            DeckId::B => &self.deck_b,
        }
    }

    /// Handles one parsed client message, reading the clock for its
    /// timestamps and drawing fresh random (version 4) UUIDs as event ids.
    /// Returns `NotApplied`, changing nothing, when handling it at the time
    /// read would overflow a counter or a position.
    pub fn handle_client_message(&mut self, message: ClientMessage, connection_id: u128, clock: &Clock) -> (r: Result<Outcome, NotApplied>)
        requires
            old(self).wf(),
        ensures
            final(self).wf(),
            r matches Err(e) ==> *final(self) == *old(self) && !old(self).can_apply(
                message,
                e.received_us,
            ),
            r matches Ok(out) ==> exists|received_us: u64, replied_us: u64, a: u128, b: u128|
                #[trigger] old(self).step(
                    message,
                    connection_id,
                    received_us,
                    replied_us,
                    (a, b),
                    *final(self),
                    out.direct@,
                    out.broadcast@,
                ) && uuid_version(a) == 4 && uuid_variant_bits(a) == 2 && uuid_version(b) == 4
                    && uuid_variant_bits(b) == 2,
    {
        let received_us = clock.now_us();
        if !self.can_apply_at(&message, received_us) {
            return Err(NotApplied { received_us });
        }
        let replied_us = clock.now_us();
        let a = new_event_id();
        let b = new_event_id();
        let ghost before = *self;
        let out = self.apply(message, connection_id, received_us, replied_us, (a, b));
        assert(before.step(
            message,
            connection_id,
            received_us,
            replied_us,
            (a, b),
            *self,
            out.direct@,
            out.broadcast@,
        ));
        let r = Ok(out);
        assert(r matches Ok(o) && o.direct@ == out.direct@ && o.broadcast@ == out.broadcast@);
        r
    }

    /// The messages a newly connected client is sent first, stamped from
    /// `clock`.
    pub fn welcome_and_snapshot(&self, connection_id: u128, clock: &Clock) -> (v: Vec<ServerMessage>)
        ensures
            exists|t1: u64, t2: u64| v@ == self.greeting_messages(connection_id, t1, t2),
    {
        let welcome_time_us = clock.now_us();
        let snapshot_time_us = clock.now_us();
        let v = self.greeting(connection_id, welcome_time_us, snapshot_time_us);
        assert(v@ == self.greeting_messages(connection_id, welcome_time_us, snapshot_time_us));
        v
    }

    /// A fresh room whose lead time is `schedule_lead_time` in whole
    /// microseconds (kept to its low 64 bits).
    pub fn with_lead_time(schedule_lead_time: Duration) -> (s: Self)
        ensures
            s.wf(),
            s.deck_a == initial_room(),
            s.deck_b == initial_room(),
            s.crossfader == initial_crossfader(),
            s.schedule_lead_time_us == duration_micros(schedule_lead_time) as u64,
            s.seen_requests@ == Seq::<Seq<char>>::empty(),
    {
        let micros = duration_as_micros(&schedule_lead_time);
        Session::new(micros as u64)
    }
}

} // verus!

verus! {

/// Recording a request id keeps the cache within capacity and free of
/// repeats, and the id is remembered afterwards.
pub proof fn law_recorded_id_is_remembered(seen: Seq<Seq<char>>, request_id: Seq<char>)
    requires
        seen.len() <= DEDUP_CACHE_CAPACITY,
        seen.no_duplicates(),
    ensures
        after_record(seen, request_id).contains(request_id),
        after_record(seen, request_id).len() <= DEDUP_CACHE_CAPACITY,
        after_record(seen, request_id).no_duplicates(),
{
    let after = after_record(seen, request_id);
    if !seen.contains(request_id) {
        let base = if seen.len() >= DEDUP_CACHE_CAPACITY {
            seen.drop_first()
        } else {
            seen
        };
        assert(after == base.push(request_id));
        assert(after[after.len() - 1] == request_id);
        assert(!base.contains(request_id)) by {
            if base.contains(request_id) {
                let k = choose|k: int| 0 <= k < base.len() && base[k] == request_id;
                if seen.len() >= DEDUP_CACHE_CAPACITY {
                    assert(seen[k + 1] == request_id);
                }
            }
        }
        assert(base.no_duplicates()) by {
            if seen.len() >= DEDUP_CACHE_CAPACITY {
                assert forall|i: int, j: int|
                    0 <= i < base.len() && 0 <= j < base.len() && i != j implies base[i]
                    != base[j] by {
                    assert(base[i] == seen[i + 1]);
                    assert(base[j] == seen[j + 1]);
                }
            }
        }
        assert forall|i: int, j: int|
            0 <= i < after.len() && 0 <= j < after.len() && i != j implies after[i]
            != after[j] by {
            if i < base.len() && j < base.len() {
                assert(after[i] == base[i]);
                assert(after[j] == base[j]);
            } else if i < base.len() {
                assert(after[i] == base[i]);
            } else if j < base.len() {
                assert(after[j] == base[j]);
            }
        }
    }
}

/// The deck a message is about, if any.
pub open spec fn target_deck(message: ClientMessage) -> Option<DeckId> {
    match message {
        ClientMessage::TransportRequest { deck, .. } => Some(deck),
        ClientMessage::SetNudgeEnabled { deck, .. } => Some(deck),
        ClientMessage::SetTempoRequest { deck, .. } => Some(deck),
        ClientMessage::SetBassCutEnabled { deck, .. } => Some(deck),
        ClientMessage::SetPitchLockEnabled { deck, .. } => Some(deck),
        ClientMessage::SetPflEnabled { deck, .. } => Some(deck),
        ClientMessage::SeekRequest { deck, .. } => Some(deck),
        ClientMessage::SetCuePoint { deck, .. } => Some(deck),
        ClientMessage::RemoveCuePoint { deck, .. } => Some(deck),
        ClientMessage::SetLoop { deck, .. } => Some(deck),
        ClientMessage::SetLoopActive { deck, .. } => Some(deck),
        ClientMessage::RemoveLoop { deck, .. } => Some(deck),
        _ => None,
    }
}

proof fn lemma_fresh_step_records(
    s: Session,
    message: ClientMessage,
    connection_id: u128,
    now: u64,
    event_ids: (u128, u128),
    new: Session,
    direct: Seq<ServerMessage>,
    broadcast: Seq<ServerMessage>,
)
    requires
        s.fresh_step(message, connection_id, now, event_ids, new, direct, broadcast),
    ensures
        new.seen_requests@ == after_record(s.seen_requests@, message.rid()@),
        new.schedule_lead_time_us == s.schedule_lead_time_us,
        match target_deck(message) {
            Some(d) => new.deck(other_deck(d)) == s.deck(other_deck(d)) && new.crossfader
                == s.crossfader,
            None => new.deck_a == s.deck_a && new.deck_b == s.deck_b,
        },
{
}

/// Scheduled, not instant: a fresh play, pause, restart or cue release and
/// every seek, applied as received at `received_us`, is announced in one
/// transport event for its deck that takes effect exactly one lead time
/// later, under the deck's next revision; a restart lands at the track's
/// start, a seek at the requested position and a cue release at the cue
/// point.
pub proof fn law_transitions_are_scheduled_one_lead_time_ahead(
    s: Session,
    message: ClientMessage,
    connection_id: u128,
    received_us: u64,
    replied_us: u64,
    event_ids: (u128, u128),
    new: Session,
    direct: Seq<ServerMessage>,
    broadcast: Seq<ServerMessage>,
)
    requires
        s.step(message, connection_id, received_us, replied_us, event_ids, new, direct, broadcast),
        s.can_apply(message, received_us),
        message.rejection(message.request_id_blank()) is None,
        !s.is_duplicate(message),
        match message {
            ClientMessage::TransportRequest { deck, action, .. } => action is Pause
                || action is Restart || (action is Play && !s.deck(deck).transport.playing) || (
            action is CueRelease && s.deck(deck).cue_point_us is Some),
            ClientMessage::SeekRequest { .. } => true,
            _ => false,
        },
    ensures
        direct.len() == 0,
        broadcast.len() == 1,
        match message {
            ClientMessage::TransportRequest { deck, action, .. } => {
                &&& broadcast[0] matches ServerMessage::TransportEvent {
                    effective_server_time_us: t,
                    action: a,
                    deck: d,
                    revision: rev,
                    position_us: p,
                    ..
                }
                &&& t == received_us + s.schedule_lead_time_us
                &&& a == action
                &&& d == deck
                &&& rev == s.deck(deck).revision + 1
                &&& action is Restart ==> p == 0
                &&& action is CueRelease ==> Some(p) == s.deck(deck).cue_point_us
            },
            ClientMessage::SeekRequest { deck, position_us, .. } => {
                &&& broadcast[0] matches ServerMessage::TransportEvent {
                    effective_server_time_us: t,
                    action: a,
                    deck: d,
                    revision: rev,
                    position_us: p,
                    ..
                }
                &&& t == received_us + s.schedule_lead_time_us
                &&& a is Seek
                &&& d == deck
                &&& rev == s.deck(deck).revision + 1
                &&& p == position_us
            },
            _ => true,
        },
{
}

/// Each message about a deck leaves the other deck and the crossfader as
/// they were; each crossfader message leaves both decks as they were.
pub proof fn law_decks_are_independent(
    s: Session,
    message: ClientMessage,
    connection_id: u128,
    received_us: u64,
    replied_us: u64,
    event_ids: (u128, u128),
    new: Session,
    direct: Seq<ServerMessage>,
    broadcast: Seq<ServerMessage>,
)
    requires
        s.step(message, connection_id, received_us, replied_us, event_ids, new, direct, broadcast),
    ensures
        match target_deck(message) {
            Some(d) => new.deck(other_deck(d)) == s.deck(other_deck(d)) && new.crossfader
                == s.crossfader,
            None => new.deck_a == s.deck_a && new.deck_b == s.deck_b,
        },
        new.schedule_lead_time_us == s.schedule_lead_time_us,
{
    if message.rejection(message.request_id_blank()) is None && !(message is ClockRequest)
        && !(message is StateRequest) && !s.is_duplicate(message) {
        lemma_fresh_step_records(s, message, connection_id, received_us, event_ids, new, direct, broadcast);
    }
}

/// A request is applied at most once: handling the same message again right
/// after it was handled (from any connection, at any time) changes nothing
/// and produces no message at all.
pub proof fn law_duplicate_request_is_not_applied_twice(
    s0: Session,
    message: ClientMessage,
    connection_id: u128,
    received_us: u64,
    replied_us: u64,
    event_ids: (u128, u128),
    s1: Session,
    direct1: Seq<ServerMessage>,
    broadcast1: Seq<ServerMessage>,
    connection_id2: u128,
    received_us2: u64,
    replied_us2: u64,
    event_ids2: (u128, u128),
    s2: Session,
    direct2: Seq<ServerMessage>,
    broadcast2: Seq<ServerMessage>,
)
    requires
        s0.wf(),
        !(message is ClockRequest),
        !(message is StateRequest),
        message.rejection(message.request_id_blank()) is None,
        s0.step(message, connection_id, received_us, replied_us, event_ids, s1, direct1, broadcast1),
        s1.step(message, connection_id2, received_us2, replied_us2, event_ids2, s2, direct2, broadcast2),
    ensures
        s2 == s1,
        direct2 == Seq::<ServerMessage>::empty(),
        broadcast2 == Seq::<ServerMessage>::empty(),
{
    if !s0.is_duplicate(message) {
        lemma_fresh_step_records(s0, message, connection_id, received_us, event_ids, s1, direct1, broadcast1);
        law_recorded_id_is_remembered(s0.seen_requests@, message.rid()@);
    }
    assert(s1.is_duplicate(message));
}

/// The revision a broadcast event reports for `deck`, if it is about it.
pub open spec fn deck_event_revision(m: ServerMessage, deck: DeckId) -> Option<u64> {
    match m {
        ServerMessage::TransportEvent { deck: d, revision, .. } => if d == deck {
            Some(revision)
        } else {
            None
        },
        ServerMessage::NudgeSettingChanged { deck: d, revision, .. } => if d == deck {
            Some(revision)
        } else {
            None
        },
        ServerMessage::BassCutSettingChanged { deck: d, revision, .. } => if d == deck {
            Some(revision)
        } else {
            None
        },
        ServerMessage::PitchLockSettingChanged { deck: d, revision, .. } => if d == deck {
            Some(revision)
        } else {
            None
        },
        ServerMessage::PflSettingChanged { deck: d, revision, .. } => if d == deck {
            Some(revision)
        } else {
            None
        },
        ServerMessage::CuePointChanged { deck: d, revision, .. } => if d == deck {
            Some(revision)
        } else {
            None
        },
        ServerMessage::CuePointRemoved { deck: d, revision, .. } => if d == deck {
            Some(revision)
        } else {
            None
        },
        ServerMessage::LoopChanged { deck: d, revision, .. } => if d == deck {
            Some(revision)
        } else {
            None
        },
        ServerMessage::LoopRemoved { deck: d, revision, .. } => if d == deck {
            Some(revision)
        } else {
            None
        },
        _ => None,
    }
}

/// The revision a broadcast event reports for the crossfader, if it is
/// about it.
pub open spec fn crossfader_event_revision(m: ServerMessage) -> Option<u64> {
    match m {
        ServerMessage::CrossfaderPositionChanged { revision, .. } => Some(revision),
        ServerMessage::CrossfaderCurveChanged { revision, .. } => Some(revision),
        _ => None,
    }
}

/// Revisions are sequence numbers: no message lowers a deck's or the
/// crossfader's revision, and no change to a deck or to the crossfader
/// goes unannounced: the last event broadcast for it reports the revision
/// it was left at.
#[verifier::rlimit(50)]
pub proof fn law_every_change_is_broadcast_in_sequence(
    s: Session,
    message: ClientMessage,
    connection_id: u128,
    received_us: u64,
    replied_us: u64,
    event_ids: (u128, u128),
    new: Session,
    direct: Seq<ServerMessage>,
    broadcast: Seq<ServerMessage>,
    deck: DeckId,
)
    requires
        s.can_apply(message, received_us),
        s.step(message, connection_id, received_us, replied_us, event_ids, new, direct, broadcast),
    ensures
        new.deck(deck).revision >= s.deck(deck).revision,
        new.crossfader.revision >= s.crossfader.revision,
        new.deck(deck) != s.deck(deck) ==> broadcast.len() > 0 && deck_event_revision(
            broadcast.last(),
            deck,
        ) == Some(new.deck(deck).revision),
        new.crossfader != s.crossfader ==> broadcast.len() > 0 && crossfader_event_revision(
            broadcast.last(),
        ) == Some(new.crossfader.revision),
{
    if message.rejection(message.request_id_blank()) is None && !(message is ClockRequest)
        && !(message is StateRequest) && !s.is_duplicate(message) {
        lemma_fresh_step_records(s, message, connection_id, received_us, event_ids, new, direct, broadcast);
        match message {
            ClientMessage::TransportRequest { .. } => {},
            ClientMessage::SetNudgeEnabled { .. } => {},
            ClientMessage::SetBassCutEnabled { .. } => {},
            ClientMessage::SetPitchLockEnabled { .. } => {},
            ClientMessage::SetPflEnabled { .. } => {},
            ClientMessage::SetTempoRequest { .. } => {},
            ClientMessage::SeekRequest { .. } => {},
            ClientMessage::SetCuePoint { .. } => {},
            ClientMessage::RemoveCuePoint { .. } => {},
            ClientMessage::SetLoop { .. } => {
                assert(broadcast.last() == broadcast[1]);
            },
            ClientMessage::SetLoopActive { .. } => {},
            ClientMessage::RemoveLoop { .. } => {},
            ClientMessage::SetCrossfaderPosition { .. } => {},
            ClientMessage::SetCrossfaderCurve { .. } => {},
            _ => {},
        }
    }
}

} // verus!
