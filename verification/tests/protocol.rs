use shared_audio_clock::protocol::{
    ClientMessage, DeckId, TransportAction, MAX_PLAYBACK_RATE, MIN_PLAYBACK_RATE,
};

/// A wire fraction (rate, fader position, curve) in parts per billion.
fn ppb(x: f64) -> i64 {
    (x * 1e9).round() as i64
}

fn tempo(rate: i64) -> ClientMessage {
    ClientMessage::SetTempoRequest { request_id: "r".to_string(), deck: DeckId::A, playback_rate: rate }
}

fn crossfader_position(position: i64) -> ClientMessage {
    ClientMessage::SetCrossfaderPosition { request_id: "r".to_string(), position }
}

#[test]
fn rejects_set_loop_with_end_before_start() {
    let msg = ClientMessage::SetLoop {
        request_id: "req".to_string(),
        deck: DeckId::A,
        start_us: 10_000_000,
        end_us: 5_000_000,
    };
    assert!(msg.validate().is_err());
}

#[test]
fn rejects_set_loop_with_end_equal_to_start() {
    let msg = ClientMessage::SetLoop {
        request_id: "req".to_string(),
        deck: DeckId::A,
        start_us: 5_000_000,
        end_us: 5_000_000,
    };
    assert!(msg.validate().is_err());
}

#[test]
fn rejects_empty_request_id() {
    let msg = ClientMessage::StateRequest { request_id: "".to_string() };
    assert!(msg.validate().is_err());
}

#[test]
fn rejects_crossfader_position_outside_bounds() {
    assert!(crossfader_position(ppb(1.5)).validate().is_err());
    assert!(crossfader_position(ppb(-0.1)).validate().is_err());
}

#[test]
fn accepts_crossfader_position_at_the_bounds() {
    assert!(crossfader_position(ppb(0.0)).validate().is_ok());
    assert!(crossfader_position(ppb(1.0)).validate().is_ok());
}

#[test]
fn rejects_crossfader_curve_outside_bounds() {
    let msg = ClientMessage::SetCrossfaderCurve { request_id: "r".to_string(), shape: ppb(1.1) };
    assert!(msg.validate().is_err());
}

#[test]
fn accepts_playback_rate_at_the_bounds() {
    assert!(tempo(MIN_PLAYBACK_RATE).validate().is_ok());
    assert!(tempo(MAX_PLAYBACK_RATE).validate().is_ok());
}

#[test]
fn rejects_playback_rate_outside_bounds() {
    assert!(tempo(ppb(1.5)).validate().is_err());
    assert!(tempo(ppb(0.5)).validate().is_err());
}

#[test]
fn playback_rate_bounds_are_six_percent_either_side() {
    assert_eq!(MIN_PLAYBACK_RATE, ppb(0.94));
    assert_eq!(MAX_PLAYBACK_RATE, ppb(1.06));
    assert!(tempo(ppb(0.939999999)).validate().is_ok());
    assert!(tempo(ppb(0.939999998)).validate().is_err());
    assert!(tempo(ppb(1.060000001)).validate().is_ok());
    assert!(tempo(ppb(1.060000002)).validate().is_err());
}

#[test]
fn validation_errors_explain_the_rejection() {
    let blank = ClientMessage::StateRequest { request_id: "   ".to_string() };
    assert_eq!(blank.validate(), Err("request_id must not be empty".to_string()));
    assert_eq!(
        tempo(ppb(2.0)).validate(),
        Err("playback_rate must be between 0.94 and 1.06".to_string())
    );
    let bad_loop = ClientMessage::SetLoop {
        request_id: "req".to_string(),
        deck: DeckId::B,
        start_us: 2,
        end_us: 1,
    };
    assert_eq!(bad_loop.validate(), Err("end_us must be greater than start_us".to_string()));
    assert_eq!(
        crossfader_position(-1).validate(),
        Err("position must be between 0.0 and 1.0".to_string())
    );
    let bad_curve = ClientMessage::SetCrossfaderCurve { request_id: "r".to_string(), shape: ppb(1.5) };
    assert_eq!(bad_curve.validate(), Err("shape must be between 0.0 and 1.0".to_string()));
}

#[test]
fn blank_request_id_is_reported_before_other_problems() {
    let msg = ClientMessage::SetLoop { request_id: "\t".to_string(), deck: DeckId::A, start_us: 9, end_us: 1 };
    assert_eq!(msg.validate(), Err("request_id must not be empty".to_string()));
    assert!(msg.request_id_is_blank());
    assert!(!tempo(ppb(1.0)).request_id_is_blank());
}

#[test]
fn accepts_ordinary_messages() {
    let msgs = vec![
        ClientMessage::ClockRequest { request_id: "clock-42".to_string(), client_send_time_ms_bits: 9382.45f64.to_bits() },
        ClientMessage::TransportRequest { request_id: "request-91".to_string(), deck: DeckId::A, action: TransportAction::Play },
        ClientMessage::SetLoop { request_id: "request-106".to_string(), deck: DeckId::A, start_us: 6_000_000, end_us: 13_500_000 },
        crossfader_position(ppb(0.25)),
        tempo(ppb(1.03)),
    ];
    for msg in msgs {
        assert!(msg.validate().is_ok());
    }
}

#[test]
fn request_id_reads_every_variant() {
    let msgs = vec![
        ClientMessage::ClockRequest { request_id: "a".to_string(), client_send_time_ms_bits: 0 },
        ClientMessage::StateRequest { request_id: "a".to_string() },
        ClientMessage::SetPflEnabled { request_id: "a".to_string(), deck: DeckId::B, enabled: true },
        ClientMessage::RemoveCuePoint { request_id: "a".to_string(), deck: DeckId::A },
        ClientMessage::RemoveLoop { request_id: "a".to_string(), deck: DeckId::A },
        ClientMessage::SetLoopActive { request_id: "a".to_string(), deck: DeckId::A, active: false },
        ClientMessage::SetCrossfaderCurve { request_id: "a".to_string(), shape: 0 },
    ];
    for msg in msgs {
        assert_eq!(msg.request_id(), "a");
    }
}

#[test]
fn validate_given_uses_the_supplied_blankness() {
    let msg = ClientMessage::StateRequest { request_id: "x".to_string() };
    assert!(msg.validate_given(true).is_err());
    assert!(msg.validate_given(false).is_ok());
}

#[test]
fn request_ids_made_only_of_unicode_whitespace_are_blank() {
    let state = |id: &str| ClientMessage::StateRequest { request_id: id.to_string() };
    for id in ["", " ", "\t\r\n", "\u{a0}\u{3000}", "\u{2028}\u{85}\u{1680}"] {
        assert!(state(id).request_id_is_blank(), "{id:?} should be blank");
        assert_eq!(state(id).validate().unwrap_err(), "request_id must not be empty");
    }
    for id in ["r", " r ", "\u{200b}", "\u{3000}x"] {
        assert!(!state(id).request_id_is_blank(), "{id:?} should not be blank");
        assert!(state(id).validate().is_ok());
    }
}
