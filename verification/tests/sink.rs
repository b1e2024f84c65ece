use scli::sink::PlaybackSink;

#[test]
fn fresh_sink_is_empty_and_loud() {
    let s = PlaybackSink::new();
    assert!(s.is_empty());
    assert!(!s.is_paused());
    assert_eq!(s.volume, 100);
}

#[test]
fn append_then_emit_drains_in_counts() {
    let mut s = PlaybackSink::new();
    s.append(&vec![1i16, -2, 3, -4]);
    assert!(!s.is_empty());
    s.emit(3);
    assert!(!s.is_empty());
    s.emit(1);
    assert!(s.is_empty());
}

#[test]
fn emit_never_underflows() {
    let mut s = PlaybackSink::new();
    s.append(&vec![0i16; 2]);
    s.emit(10);
    assert!(s.is_empty());
    assert_eq!(s.queued, 0);
}

#[test]
fn paused_sink_emits_nothing() {
    let mut s = PlaybackSink::new();
    s.append(&vec![0i16; 5]);
    s.pause();
    assert!(s.is_paused());
    s.emit(5);
    assert!(!s.is_empty());
    s.play();
    s.emit(5);
    assert!(s.is_empty());
}

#[test]
fn out_of_range_volume_is_rejected_not_clamped() {
    let mut s = PlaybackSink::new();
    s.set_volume(55);
    assert_eq!(s.volume, 55);
    s.set_volume(101);
    assert_eq!(s.volume, 55);
    s.set_volume(100);
    assert_eq!(s.volume, 100);
    s.set_volume(0);
    assert_eq!(s.volume, 0);
}
