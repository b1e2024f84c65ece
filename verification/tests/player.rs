use scli::player::{Player, PlayerEvent, PlayerState, SinkCommand};

#[test]
fn starts_playing_at_full_volume() {
    let p = Player::new(180000);
    assert_eq!(p.state, PlayerState::Playing);
    assert_eq!(p.progress, 0);
    assert_eq!(p.volume, 100);
    assert_eq!(p.elapsed_ms, 0);
    assert_eq!(p.total_ms, 180000);
}

#[test]
fn play_pause_alternates() {
    let mut p = Player::new(1000);
    let cmd = p.update(PlayerEvent::PlayPause, false, 0);
    assert_eq!(p.state, PlayerState::Paused);
    assert_eq!(cmd, SinkCommand::Pause);
    let cmd = p.update(PlayerEvent::PlayPause, false, 0);
    assert_eq!(p.state, PlayerState::Playing);
    assert_eq!(cmd, SinkCommand::Play);
    let cmd = p.update(PlayerEvent::PlayPause, false, 0);
    assert_eq!(p.state, PlayerState::Paused);
    assert_eq!(cmd, SinkCommand::Pause);
}

#[test]
fn play_pause_is_a_no_op_once_stopped() {
    let mut p = Player::new(1000);
    p.update(PlayerEvent::Tick, true, 0);
    assert_eq!(p.state, PlayerState::Stopped);
    let cmd = p.update(PlayerEvent::PlayPause, true, 0);
    assert_eq!(p.state, PlayerState::Stopped);
    assert_eq!(cmd, SinkCommand::Stay);
}

#[test]
fn volume_up_at_hundred_is_a_no_op() {
    let mut p = Player::new(1000);
    assert_eq!(p.volume, 100);
    let cmd = p.update(PlayerEvent::VolumeUp, false, 0);
    assert_eq!(p.volume, 100);
    assert_eq!(cmd, SinkCommand::Stay);
}

#[test]
fn volume_down_at_zero_is_a_no_op() {
    let mut p = Player::new(1000);
    for _ in 0..100 {
        p.update(PlayerEvent::VolumeDown, false, 0);
    }
    assert_eq!(p.volume, 0);
    let cmd = p.update(PlayerEvent::VolumeDown, false, 0);
    assert_eq!(p.volume, 0);
    assert_eq!(cmd, SinkCommand::Stay);
}

#[test]
fn volume_moves_by_exactly_one() {
    let mut p = Player::new(1000);
    let cmd = p.update(PlayerEvent::VolumeDown, false, 0);
    assert_eq!(p.volume, 99);
    assert_eq!(cmd, SinkCommand::SetVolume(99));
    let cmd = p.update(PlayerEvent::VolumeUp, false, 0);
    assert_eq!(p.volume, 100);
    assert_eq!(cmd, SinkCommand::SetVolume(100));
}

#[test]
fn progress_follows_elapsed_and_is_clamped() {
    let mut p = Player::new(200000);
    p.update(PlayerEvent::Tick, false, 50000);
    assert_eq!(p.progress, 25);
    p.update(PlayerEvent::Tick, false, 200000);
    assert_eq!(p.progress, 100);
    // Elapsed past the reported total stays clamped at 100.
    p.update(PlayerEvent::Tick, false, 300000);
    assert_eq!(p.progress, 100);
}

#[test]
fn progress_with_unknown_total_stays_zero() {
    let mut p = Player::new(0);
    p.update(PlayerEvent::Tick, false, 12345);
    assert_eq!(p.progress, 0);
}

#[test]
fn progress_resets_on_the_stopping_tick() {
    let mut p = Player::new(100000);
    p.update(PlayerEvent::Tick, false, 60000);
    assert_eq!(p.progress, 60);
    // The tick that finds the sink drained stops and resets at once.
    p.update(PlayerEvent::Tick, true, 60000);
    assert_eq!(p.state, PlayerState::Stopped);
    assert_eq!(p.progress, 0);
    // Later ticks keep it stopped at zero.
    p.update(PlayerEvent::Tick, true, 60000);
    assert_eq!(p.state, PlayerState::Stopped);
    assert_eq!(p.progress, 0);
}

#[test]
fn paused_player_stops_when_sink_drains() {
    let mut p = Player::new(100000);
    p.update(PlayerEvent::PlayPause, false, 0);
    assert_eq!(p.state, PlayerState::Paused);
    p.update(PlayerEvent::Tick, true, 0);
    assert_eq!(p.state, PlayerState::Stopped);
    assert_eq!(p.progress, 0);
}
