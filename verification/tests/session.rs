use shared_audio_clock::protocol::{ClientMessage, DeckId, ServerMessage, TransportAction};
use shared_audio_clock::room::CROSSFADER_CENTER;
use shared_audio_clock::session::{unparsable_message_error, Outcome, Session, DEDUP_CACHE_CAPACITY};

const LEAD_US: u64 = 150_000;

fn rate(x: f64) -> u64 {
    (x * 1e9).round() as u64
}

fn ppb(x: f64) -> i64 {
    (x * 1e9).round() as i64
}

fn transport(id: &str, deck: DeckId, action: TransportAction) -> ClientMessage {
    ClientMessage::TransportRequest { request_id: id.to_string(), deck, action }
}

fn state_request(id: &str) -> ClientMessage {
    ClientMessage::StateRequest { request_id: id.to_string() }
}

/// Applies `msg` as if received at `now` from connection 7, with event ids
/// derived from `now`.
fn send(session: &mut Session, msg: ClientMessage, now: u64) -> Outcome {
    session.apply(msg, 7, now, now + 1, (now as u128 * 2, now as u128 * 2 + 1))
}

fn snapshot_of(out: &Outcome) -> (u64, u64, u64, shared_audio_clock::protocol::DeckStateDto, shared_audio_clock::protocol::DeckStateDto) {
    match &out.direct[0] {
        ServerMessage::StateSnapshot { crossfader_revision, crossfader_position, crossfader_curve_shape, deck_a, deck_b, .. } => {
            (*crossfader_revision, *crossfader_position, *crossfader_curve_shape, *deck_a, *deck_b)
        }
        other => panic!("expected a snapshot, got {other:?}"),
    }
}

#[test]
fn two_clients_observe_the_same_canonical_transport_events() {
    let mut session = Session::new(LEAD_US);
    let greeting = session.greeting(42, 1_000, 1_001);
    assert_eq!(greeting.len(), 2);
    match &greeting[0] {
        ServerMessage::Welcome { connection_id, schedule_lead_time_us, .. } => {
            assert_eq!(*connection_id, 42);
            assert_eq!(*schedule_lead_time_us, 150_000);
        }
        other => panic!("expected a welcome, got {other:?}"),
    }
    match &greeting[1] {
        ServerMessage::StateSnapshot { deck_a, .. } => {
            assert_eq!(deck_a.revision, 0);
            assert!(!deck_a.transport.playing);
            assert!(deck_a.nudge_enabled);
        }
        other => panic!("expected a snapshot, got {other:?}"),
    }

    let play = send(&mut session, transport("request-91", DeckId::A, TransportAction::Play), 2_000);
    assert!(play.direct.is_empty());
    assert_eq!(play.broadcast.len(), 1);
    match &play.broadcast[0] {
        ServerMessage::TransportEvent { request_id, revision, action, position_us, effective_server_time_us, .. } => {
            assert_eq!(request_id, "request-91");
            assert_eq!(*revision, 1);
            assert_eq!(*action, TransportAction::Play);
            assert_eq!(*position_us, 0);
            assert_eq!(*effective_server_time_us, 2_000 + LEAD_US);
        }
        other => panic!("expected a transport event, got {other:?}"),
    }

    let pause = send(&mut session, transport("request-92", DeckId::A, TransportAction::Pause), 1_000_000);
    let (pause_position, pause_time) = match &pause.broadcast[0] {
        ServerMessage::TransportEvent { revision, action, position_us, effective_server_time_us, .. } => {
            assert_eq!(*revision, 2);
            assert_eq!(*action, TransportAction::Pause);
            (*position_us, *effective_server_time_us)
        }
        other => panic!("expected a transport event, got {other:?}"),
    };

    let snapshot = send(&mut session, state_request("state-12"), 2_000_000);
    assert!(snapshot.broadcast.is_empty());
    let (_, _, _, deck_a, _) = snapshot_of(&snapshot);
    assert_eq!(deck_a.revision, 2);
    assert!(!deck_a.transport.playing);
    assert_eq!(deck_a.transport.anchor_position_us, pause_position);
    assert_eq!(deck_a.transport.anchor_server_time_us, pause_time);
}

#[test]
fn clock_request_round_trips_the_opaque_client_timestamp() {
    let mut session = Session::new(LEAD_US);
    let bits = 9382.45f64.to_bits();
    let out = session.apply(
        ClientMessage::ClockRequest { request_id: "clock-42".to_string(), client_send_time_ms_bits: bits },
        7,
        48_200_110,
        48_200_142,
        (0, 0),
    );
    assert!(out.broadcast.is_empty());
    assert_eq!(
        out.direct,
        vec![ServerMessage::ClockResponse {
            request_id: "clock-42".to_string(),
            client_send_time_ms_bits: bits,
            server_receive_time_us: 48_200_110,
            server_send_time_us: 48_200_142,
        }]
    );
    assert_eq!(f64::from_bits(bits), 9382.45);
}

#[test]
fn duplicate_request_id_is_not_applied_twice() {
    let mut session = Session::new(LEAD_US);
    let first = send(&mut session, transport("dup-1", DeckId::A, TransportAction::Play), 10);
    assert_eq!(first.broadcast.len(), 1);
    let second = send(&mut session, transport("dup-1", DeckId::A, TransportAction::Play), 20);
    assert!(second.broadcast.is_empty());
    assert!(second.direct.is_empty());
    let (_, _, _, deck_a, _) = snapshot_of(&send(&mut session, state_request("state-1"), 30));
    assert_eq!(deck_a.revision, 1);
}

#[test]
fn restart_resets_position_but_keeps_playing_and_broadcasts_to_both_clients() {
    let mut session = Session::new(LEAD_US);
    send(&mut session, transport("req-play", DeckId::A, TransportAction::Play), 0);
    let restart = send(&mut session, transport("req-restart", DeckId::A, TransportAction::Restart), 5_000_000);
    match &restart.broadcast[0] {
        ServerMessage::TransportEvent { action, position_us, revision, .. } => {
            assert_eq!(*action, TransportAction::Restart);
            assert_eq!(*position_us, 0);
            assert_eq!(*revision, 2);
        }
        other => panic!("expected a transport event, got {other:?}"),
    }
    let (_, _, _, deck_a, _) = snapshot_of(&send(&mut session, state_request("state-after-restart"), 6_000_000));
    assert!(deck_a.transport.playing);
    assert_eq!(deck_a.transport.anchor_position_us, 0);
}

#[test]
fn seek_jumps_to_target_position_and_broadcasts_to_both_clients() {
    let mut session = Session::new(LEAD_US);
    send(&mut session, transport("req-play", DeckId::A, TransportAction::Play), 0);
    let seek = send(
        &mut session,
        ClientMessage::SeekRequest { request_id: "req-seek".to_string(), deck: DeckId::A, position_us: 4_500_000 },
        1_000_000,
    );
    match &seek.broadcast[0] {
        ServerMessage::TransportEvent { action, position_us, revision, .. } => {
            assert_eq!(*action, TransportAction::Seek);
            assert_eq!(*position_us, 4_500_000);
            assert_eq!(*revision, 2);
        }
        other => panic!("expected a transport event, got {other:?}"),
    }
    let (_, _, _, deck_a, _) = snapshot_of(&send(&mut session, state_request("state-after-seek"), 2_000_000));
    assert!(deck_a.transport.playing);
    assert_eq!(deck_a.transport.anchor_position_us, 4_500_000);
}

#[test]
fn cue_point_set_and_released_syncs_to_both_clients() {
    let mut session = Session::new(LEAD_US);
    let (_, _, _, deck_a, _) = snapshot_of(&send(&mut session, state_request("s0"), 0));
    assert_eq!(deck_a.cue_point_us, None);
    send(&mut session, transport("req-play", DeckId::A, TransportAction::Play), 0);
    let cue = send(
        &mut session,
        ClientMessage::SetCuePoint { request_id: "req-cue-set".to_string(), deck: DeckId::A, position_us: 6_000_000 },
        1_000_000,
    );
    match &cue.broadcast[0] {
        ServerMessage::CuePointChanged { position_us, revision, .. } => {
            assert_eq!(*position_us, 6_000_000);
            assert_eq!(*revision, 2);
        }
        other => panic!("expected a cue point event, got {other:?}"),
    }
    let (_, _, _, deck_a, _) = snapshot_of(&send(&mut session, state_request("state-after-cue-set"), 1_100_000));
    assert_eq!(deck_a.cue_point_us, Some(6_000_000));
    assert!(deck_a.transport.playing);

    let release = send(&mut session, transport("req-cue-release", DeckId::A, TransportAction::CueRelease), 2_000_000);
    match &release.broadcast[0] {
        ServerMessage::TransportEvent { action, position_us, revision, .. } => {
            assert_eq!(*action, TransportAction::CueRelease);
            assert_eq!(*position_us, 6_000_000);
            assert_eq!(*revision, 3);
        }
        other => panic!("expected a transport event, got {other:?}"),
    }
    let (_, _, _, deck_a, _) = snapshot_of(&send(&mut session, state_request("state-after-cue-release"), 3_000_000));
    assert!(!deck_a.transport.playing);
    assert_eq!(deck_a.transport.anchor_position_us, 6_000_000);
}

#[test]
fn nudge_setting_syncs_to_both_clients_and_is_idempotent() {
    let mut session = Session::new(LEAD_US);
    let off = |id: &str| ClientMessage::SetNudgeEnabled { request_id: id.to_string(), deck: DeckId::A, enabled: false };
    let event = send(&mut session, off("req-nudge-off"), 10);
    assert_eq!(
        event.broadcast,
        vec![ServerMessage::NudgeSettingChanged {
            event_id: 20,
            request_id: "req-nudge-off".to_string(),
            origin_connection_id: 7,
            deck: DeckId::A,
            revision: 1,
            enabled: false,
        }]
    );
    let (_, _, _, deck_a, _) = snapshot_of(&send(&mut session, state_request("s1"), 20));
    assert!(!deck_a.nudge_enabled);
    assert_eq!(deck_a.revision, 1);
    let again = send(&mut session, off("req-nudge-off-again"), 30);
    assert!(again.direct.is_empty() && again.broadcast.is_empty());
    let (_, _, _, deck_a, _) = snapshot_of(&send(&mut session, state_request("s2"), 40));
    assert_eq!(deck_a.revision, 1);
}

#[test]
fn bass_cut_setting_syncs_to_both_clients_and_is_idempotent() {
    let mut session = Session::new(LEAD_US);
    let on = |id: &str| ClientMessage::SetBassCutEnabled { request_id: id.to_string(), deck: DeckId::A, enabled: true };
    let event = send(&mut session, on("req-bass-on"), 10);
    match &event.broadcast[0] {
        ServerMessage::BassCutSettingChanged { enabled, revision, request_id, .. } => {
            assert!(*enabled);
            assert_eq!(*revision, 1);
            assert_eq!(request_id, "req-bass-on");
        }
        other => panic!("expected a bass-cut event, got {other:?}"),
    }
    let again = send(&mut session, on("req-bass-on-again"), 20);
    assert!(again.direct.is_empty() && again.broadcast.is_empty());
    let (_, _, _, deck_a, _) = snapshot_of(&send(&mut session, state_request("s"), 30));
    assert!(deck_a.bass_cut_enabled);
    assert_eq!(deck_a.revision, 1);
}

#[test]
fn pitch_lock_setting_syncs_to_both_clients_and_is_idempotent() {
    let mut session = Session::new(LEAD_US);
    let off = |id: &str| ClientMessage::SetPitchLockEnabled { request_id: id.to_string(), deck: DeckId::A, enabled: false };
    let event = send(&mut session, off("req-pitch-lock-off"), 10);
    match &event.broadcast[0] {
        ServerMessage::PitchLockSettingChanged { enabled, revision, .. } => {
            assert!(!*enabled);
            assert_eq!(*revision, 1);
        }
        other => panic!("expected a pitch-lock event, got {other:?}"),
    }
    let again = send(&mut session, off("req-pitch-lock-off-again"), 20);
    assert!(again.direct.is_empty() && again.broadcast.is_empty());
    let (_, _, _, deck_a, _) = snapshot_of(&send(&mut session, state_request("s"), 30));
    assert!(!deck_a.pitch_lock_enabled);
    assert_eq!(deck_a.revision, 1);
}

#[test]
fn repeated_pfl_value_announces_nothing() {
    let mut session = Session::new(LEAD_US);
    let on = |id: &str| ClientMessage::SetPflEnabled { request_id: id.to_string(), deck: DeckId::B, enabled: true };
    let first = send(&mut session, on("pfl-on"), 10);
    assert_eq!(first.broadcast.len(), 1);
    let again = send(&mut session, on("pfl-on-again"), 20);
    assert!(again.direct.is_empty() && again.broadcast.is_empty());
    let (_, _, _, _, deck_b) = snapshot_of(&send(&mut session, state_request("s"), 30));
    assert!(deck_b.pfl_enabled);
    assert_eq!(deck_b.revision, 1);
}

#[test]
fn tempo_change_syncs_to_both_clients_and_carries_into_next_play() {
    let mut session = Session::new(LEAD_US);
    let tempo = |id: &str, r: f64| ClientMessage::SetTempoRequest { request_id: id.to_string(), deck: DeckId::A, playback_rate: ppb(r) };
    let event = send(&mut session, tempo("req-tempo-fast", 1.06), 10);
    match &event.broadcast[0] {
        ServerMessage::TransportEvent { action, playback_rate, revision, .. } => {
            assert_eq!(*action, TransportAction::SetTempo);
            assert_eq!(*playback_rate, rate(1.06));
            assert_eq!(*revision, 1);
        }
        other => panic!("expected a transport event, got {other:?}"),
    }
    let bad = send(&mut session, tempo("req-tempo-bad", 2.0), 20);
    assert!(bad.broadcast.is_empty());
    match &bad.direct[0] {
        ServerMessage::Error { request_id, code, .. } => {
            assert_eq!(request_id.as_deref(), Some("req-tempo-bad"));
            assert_eq!(code, "invalid_message");
        }
        other => panic!("expected an error, got {other:?}"),
    }
    let (_, _, _, deck_a, _) = snapshot_of(&send(&mut session, state_request("s"), 30));
    assert_eq!(deck_a.revision, 1);
    assert_eq!(deck_a.transport.playback_rate, rate(1.06));
    let play = send(&mut session, transport("req-play-after-tempo", DeckId::A, TransportAction::Play), 40);
    match &play.broadcast[0] {
        ServerMessage::TransportEvent { action, playback_rate, .. } => {
            assert_eq!(*action, TransportAction::Play);
            assert_eq!(*playback_rate, rate(1.06));
        }
        other => panic!("expected a transport event, got {other:?}"),
    }
}

#[test]
fn rapid_tempo_samples_each_get_a_distinct_ordered_broadcast() {
    let mut session = Session::new(LEAD_US);
    let mut last_revision = 0;
    for (i, r) in [1.01, 1.02, 1.03, 1.04, 1.05].iter().enumerate() {
        let now = 1_000 + i as u64 * 40_000;
        let msg = ClientMessage::SetTempoRequest { request_id: format!("drag-{i}"), deck: DeckId::A, playback_rate: ppb(*r) };
        let out = send(&mut session, msg, now);
        match &out.broadcast[0] {
            ServerMessage::TransportEvent { playback_rate, revision, effective_server_time_us, .. } => {
                assert_eq!(*playback_rate, rate(*r));
                assert!(*revision > last_revision, "revisions must strictly increase");
                assert_eq!(*effective_server_time_us, now);
                last_revision = *revision;
            }
            other => panic!("expected a transport event, got {other:?}"),
        }
    }
    let (_, _, _, deck_a, _) = snapshot_of(&send(&mut session, state_request("state-after-drag"), 1_000_000));
    assert_eq!(deck_a.transport.playback_rate, rate(1.05));
}

#[test]
fn transport_request_refuses_seek_and_set_tempo_actions() {
    let mut session = Session::new(LEAD_US);
    for (action, text) in [
        (TransportAction::Seek, "seek is not valid for transport_request; use seek_request instead"),
        (TransportAction::SetTempo, "set_tempo is not valid for transport_request; use set_tempo_request instead"),
    ] {
        let id = format!("{action:?}");
        let out = send(&mut session, transport(&id, DeckId::B, action), 10);
        assert!(out.broadcast.is_empty());
        assert_eq!(
            out.direct,
            vec![ServerMessage::Error { request_id: Some(id.clone()), code: "invalid_message".to_string(), message: text.to_string() }]
        );
        // The request id is now spent: repeating it is silently ignored.
        let again = send(&mut session, transport(&id, DeckId::B, action), 20);
        assert!(again.direct.is_empty() && again.broadcast.is_empty());
    }
    let (_, _, _, _, deck_b) = snapshot_of(&send(&mut session, state_request("s"), 30));
    assert_eq!(deck_b.revision, 0);
}

#[test]
fn decks_are_independent() {
    let mut session = Session::new(LEAD_US);
    let out = send(&mut session, transport("b-play", DeckId::B, TransportAction::Play), 100);
    match &out.broadcast[0] {
        ServerMessage::TransportEvent { deck, revision, .. } => {
            assert_eq!(*deck, DeckId::B);
            assert_eq!(*revision, 1);
        }
        other => panic!("expected a transport event, got {other:?}"),
    }
    send(&mut session, ClientMessage::SetPflEnabled { request_id: "b-pfl".to_string(), deck: DeckId::B, enabled: true }, 200);
    let (_, _, _, deck_a, deck_b) = snapshot_of(&send(&mut session, state_request("s"), 300));
    assert_eq!(deck_a.revision, 0);
    assert!(!deck_a.transport.playing);
    assert!(!deck_a.pfl_enabled);
    assert_eq!(deck_b.revision, 2);
    assert!(deck_b.transport.playing);
    assert!(deck_b.pfl_enabled);
}

#[test]
fn set_loop_broadcasts_cue_then_loop_with_consecutive_revisions() {
    let mut session = Session::new(LEAD_US);
    let out = session.apply(
        ClientMessage::SetLoop { request_id: "loop".to_string(), deck: DeckId::A, start_us: 1_000_000, end_us: 3_000_000 },
        9,
        50,
        51,
        (100, 101),
    );
    assert_eq!(
        out.broadcast,
        vec![
            ServerMessage::CuePointChanged {
                event_id: 100,
                request_id: "loop".to_string(),
                origin_connection_id: 9,
                deck: DeckId::A,
                revision: 1,
                position_us: 1_000_000,
            },
            ServerMessage::LoopChanged {
                event_id: 101,
                request_id: "loop".to_string(),
                origin_connection_id: 9,
                deck: DeckId::A,
                revision: 2,
                start_us: 1_000_000,
                end_us: 3_000_000,
                active: true,
            },
        ]
    );
}

#[test]
fn loop_and_cue_removal_and_toggling() {
    let mut session = Session::new(LEAD_US);
    let toggle = send(&mut session, ClientMessage::SetLoopActive { request_id: "t0".to_string(), deck: DeckId::A, active: false }, 1);
    assert!(toggle.broadcast.is_empty() && toggle.direct.is_empty());
    let remove = send(&mut session, ClientMessage::RemoveLoop { request_id: "r0".to_string(), deck: DeckId::A }, 2);
    assert!(remove.broadcast.is_empty());
    let remove_cue = send(&mut session, ClientMessage::RemoveCuePoint { request_id: "c0".to_string(), deck: DeckId::A }, 3);
    assert!(remove_cue.broadcast.is_empty());

    send(&mut session, ClientMessage::SetLoop { request_id: "l".to_string(), deck: DeckId::A, start_us: 10, end_us: 20 }, 4);
    let toggle = send(&mut session, ClientMessage::SetLoopActive { request_id: "t1".to_string(), deck: DeckId::A, active: false }, 5);
    match &toggle.broadcast[0] {
        ServerMessage::LoopChanged { active, revision, start_us, end_us, .. } => {
            assert!(!*active);
            assert_eq!((*revision, *start_us, *end_us), (3, 10, 20));
        }
        other => panic!("expected a loop event, got {other:?}"),
    }
    let remove = send(&mut session, ClientMessage::RemoveLoop { request_id: "r1".to_string(), deck: DeckId::A }, 6);
    match &remove.broadcast[0] {
        ServerMessage::LoopRemoved { revision, .. } => assert_eq!(*revision, 4),
        other => panic!("expected a loop removal, got {other:?}"),
    }
    let remove_cue = send(&mut session, ClientMessage::RemoveCuePoint { request_id: "c1".to_string(), deck: DeckId::A }, 7);
    match &remove_cue.broadcast[0] {
        ServerMessage::CuePointRemoved { revision, .. } => assert_eq!(*revision, 5),
        other => panic!("expected a cue removal, got {other:?}"),
    }
    let (_, _, _, deck_a, _) = snapshot_of(&send(&mut session, state_request("s"), 8));
    assert_eq!(deck_a.loop_region, None);
    assert_eq!(deck_a.cue_point_us, None);
}

#[test]
fn crossfader_moves_are_synced_with_their_own_revision() {
    let mut session = Session::new(LEAD_US);
    let (revision, position, curve, _, _) = snapshot_of(&send(&mut session, state_request("s0"), 0));
    assert_eq!((revision, position, curve), (0, CROSSFADER_CENTER, 0));
    let moved = send(&mut session, ClientMessage::SetCrossfaderPosition { request_id: "request-110".to_string(), position: ppb(0.25) }, 1);
    assert_eq!(
        moved.broadcast,
        vec![ServerMessage::CrossfaderPositionChanged {
            event_id: 2,
            request_id: "request-110".to_string(),
            origin_connection_id: 7,
            revision: 1,
            position: 250_000_000,
        }]
    );
    let curved = send(&mut session, ClientMessage::SetCrossfaderCurve { request_id: "request-111".to_string(), shape: ppb(0.8) }, 2);
    match &curved.broadcast[0] {
        ServerMessage::CrossfaderCurveChanged { revision, shape, .. } => {
            assert_eq!(*revision, 2);
            assert_eq!(*shape, 800_000_000);
        }
        other => panic!("expected a curve event, got {other:?}"),
    }
    let same = send(&mut session, ClientMessage::SetCrossfaderCurve { request_id: "request-112".to_string(), shape: ppb(0.8) }, 3);
    match &same.broadcast[0] {
        ServerMessage::CrossfaderCurveChanged { revision, .. } => assert_eq!(*revision, 2),
        other => panic!("expected a curve event, got {other:?}"),
    }
    let bad = send(&mut session, ClientMessage::SetCrossfaderPosition { request_id: "bad".to_string(), position: ppb(1.5) }, 4);
    assert!(bad.broadcast.is_empty());
    let (revision, position, curve, deck_a, _) = snapshot_of(&send(&mut session, state_request("s1"), 5));
    assert_eq!((revision, position, curve), (2, 250_000_000, 800_000_000));
    assert_eq!(deck_a.revision, 0);
}

#[test]
fn dedup_cache_forgets_the_oldest_ids() {
    let mut session = Session::new(LEAD_US);
    for i in 0..=DEDUP_CACHE_CAPACITY {
        let msg = ClientMessage::SetCuePoint { request_id: format!("cue-{i}"), deck: DeckId::A, position_us: i as u64 };
        assert_eq!(send(&mut session, msg, 10).broadcast.len(), 1);
    }
    // "cue-0" has been forgotten, "cue-1" is still remembered.
    let again0 = send(&mut session, ClientMessage::SetCuePoint { request_id: "cue-0".to_string(), deck: DeckId::A, position_us: 0 }, 20);
    assert_eq!(again0.broadcast.len(), 1);
    let again_last = send(
        &mut session,
        ClientMessage::SetCuePoint { request_id: format!("cue-{DEDUP_CACHE_CAPACITY}"), deck: DeckId::A, position_us: 0 },
        30,
    );
    assert!(again_last.broadcast.is_empty());
}

#[test]
fn blank_request_id_is_answered_with_an_error_and_changes_nothing() {
    let mut session = Session::new(LEAD_US);
    let out = send(&mut session, transport(" ", DeckId::A, TransportAction::Play), 10);
    assert!(out.broadcast.is_empty());
    assert_eq!(
        out.direct,
        vec![ServerMessage::Error {
            request_id: Some(" ".to_string()),
            code: "invalid_message".to_string(),
            message: "request_id must not be empty".to_string(),
        }]
    );
    let (_, _, _, deck_a, _) = snapshot_of(&send(&mut session, state_request("s"), 20));
    assert_eq!(deck_a.revision, 0);
}

#[test]
fn unparsable_messages_get_an_error_without_request_id() {
    assert_eq!(
        unparsable_message_error("expected value at line 1 column 1"),
        ServerMessage::Error {
            request_id: None,
            code: "invalid_message".to_string(),
            message: "Could not parse message: expected value at line 1 column 1".to_string(),
        }
    );
}

#[test]
fn handle_reads_the_clock_and_applies() {
    let mut session = Session::new(LEAD_US);
    let clock = shared_audio_clock::clock::Clock::new();
    let out = session
        .handle_client_message(transport("h", DeckId::A, TransportAction::Play), 3, &clock)
        .expect("fits");
    match &out.broadcast[0] {
        ServerMessage::TransportEvent { origin_connection_id, revision, event_id, .. } => {
            assert_eq!(*origin_connection_id, 3);
            assert_eq!(*revision, 1);
            assert_eq!((*event_id >> 76) & 0xf, 4);
        }
        other => panic!("expected a transport event, got {other:?}"),
    }
    let greeting = session.welcome_and_snapshot(3, &clock);
    assert_eq!(greeting.len(), 2);
}

#[test]
fn handle_declines_what_would_overflow() {
    let mut session = Session::new(u64::MAX);
    let clock = shared_audio_clock::clock::Clock::new();
    while clock.now_us() == 0 {}
    let declined = session
        .handle_client_message(transport("p", DeckId::A, TransportAction::Play), 3, &clock)
        .err()
        .expect("declined");
    assert!(declined.received_us > 0);
    assert!(!session.can_apply_at(&transport("p", DeckId::A, TransportAction::Play), declined.received_us));
    assert!(!session.can_apply_at(&transport("p", DeckId::A, TransportAction::Play), 5));
    assert!(session.can_apply_at(&state_request("s"), 5));
}

#[test]
fn lead_time_comes_from_a_duration() {
    let session = Session::with_lead_time(std::time::Duration::from_millis(150));
    assert_eq!(session.schedule_lead_time_us, 150_000);
}
