//! The transport.

use voicestudio::player::{format_time, AudioPlayer, Transport};

#[test]
fn a_fresh_clip_stands_at_its_beginning_whatever_the_device_says() {
    let mut player = AudioPlayer::new();
    player.load(5_000);
    assert_eq!(player.position(4_000), 0);
    assert_eq!(player.progress(4_000), Some((0, 5_000)));
    assert_eq!(player.play(), Transport::Play);
    assert_eq!(player.position(4_000), 4_000);
    player.load(2_000);
    assert_eq!(player.position(4_000), 0);
}

#[test]
fn the_position_does_not_run_past_the_end() {
    let mut player = AudioPlayer::new();
    player.load(5_000);
    player.play();
    assert_eq!(player.position(9_000), 5_000);
    assert_eq!(player.progress(9_000), Some((5_000, 5_000)));
}

#[test]
fn an_exhausted_queue_is_not_playing() {
    let mut player = AudioPlayer::new();
    assert!(player.is_playing(false, false));
    assert!(!player.is_playing(false, true));
    assert!(!player.is_playing(true, false));
    assert!(player.finished(true));
    assert!(!player.finished(false));
    assert_eq!(player.toggle(false, false), Transport::Pause);
    assert!(!player.started);
    assert_eq!(player.toggle(false, true), Transport::Play);
    assert!(player.started);
    assert_eq!(player.pause(), Transport::Pause);
}

#[test]
fn a_seek_makes_the_position_this_clips_own() {
    let mut player = AudioPlayer::new();
    player.load(5_000);
    player.seek_to();
    assert_eq!(player.position(1_250), 1_250);
}

#[test]
fn nothing_loaded_has_no_progress() {
    assert_eq!(AudioPlayer::new().progress(3), None);
}

#[test]
fn time_reads_as_minutes_and_seconds() {
    assert_eq!(format_time(17), "0:17");
    assert_eq!(format_time(125), "2:05");
}
