use shared_audio_clock::room::new_event_id;

#[test]
fn event_ids_are_version_four_uuids() {
    let a = new_event_id();
    let b = new_event_id();
    assert_ne!(a, b);
    for id in [a, b] {
        assert_eq!((id >> 76) & 0xf, 4);
        assert_eq!((id >> 62) & 0x3, 2);
    }
}
