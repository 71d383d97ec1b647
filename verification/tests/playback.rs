//! Sound player playback behavior.

use std::sync::{Arc, Mutex};

use kira::frame::{Frame, FIXED_ONE, NANOS_PER_SEC};
use kira::sound::player::SoundPlayer;
use kira::sound::static_sound::{StaticSound, StaticSoundSettings};
use kira::sound::{LoopBehavior, PlaybackInfo, Sound, SoundState};

fn four_sample_sound() -> StaticSound {
    StaticSound::from_frames(
        1,
        vec![
            Frame::from_mono(0),
            Frame::from_mono(FIXED_ONE),
            Frame::from_mono(2 * FIXED_ONE),
            Frame::from_mono(3 * FIXED_ONE),
        ],
        Default::default(),
    )
}

#[test]
fn playback() {
    let mut player = SoundPlayer::new(four_sample_sound());
    assert_eq!(player.state(), SoundState::Playing);
    assert_eq!(player.process(NANOS_PER_SEC), Frame::from_mono(0));
    assert_eq!(player.state(), SoundState::Playing);
    assert_eq!(player.process(NANOS_PER_SEC), Frame::from_mono(FIXED_ONE));
    assert_eq!(player.state(), SoundState::Playing);
    assert_eq!(player.process(NANOS_PER_SEC), Frame::from_mono(2 * FIXED_ONE));
    assert_eq!(player.state(), SoundState::Playing);
    assert_eq!(player.process(NANOS_PER_SEC), Frame::from_mono(3 * FIXED_ONE));
    assert_eq!(player.state(), SoundState::Playing);
    assert_eq!(player.process(NANOS_PER_SEC), Frame::from_mono(0));
    assert_eq!(player.state(), SoundState::Stopped);
}

struct DummySound {
    last_reported_playback_info: Arc<Mutex<Option<PlaybackInfo>>>,
}

impl DummySound {
    fn new() -> Self {
        Self { last_reported_playback_info: Arc::new(Mutex::new(None)) }
    }
}

impl Sound for DummySound {
    fn duration(&mut self) -> u64 {
        10 * NANOS_PER_SEC
    }

    fn default_loop_behavior(&mut self) -> Option<LoopBehavior> {
        None
    }

    fn frame_at_position(&mut self, _position: u64) -> Frame {
        Frame::zero()
    }

    fn report_playback_info(&mut self, playback_info: PlaybackInfo) {
        *self.last_reported_playback_info.lock().unwrap() = Some(playback_info);
    }
}

#[test]
fn playback_info_reporting() {
    let sound = DummySound::new();
    let last_reported_playback_info = sound.last_reported_playback_info.clone();
    let mut player = SoundPlayer::new(sound);
    player.on_start_processing();
    {
        let playback_info = last_reported_playback_info.lock().unwrap();
        assert_eq!(
            *playback_info,
            Some(PlaybackInfo { state: SoundState::Playing, position: 0 })
        )
    }
    player.process(2 * NANOS_PER_SEC);
    player.on_start_processing();
    {
        let playback_info = last_reported_playback_info.lock().unwrap();
        assert_eq!(
            *playback_info,
            Some(PlaybackInfo { state: SoundState::Playing, position: 2 * NANOS_PER_SEC })
        )
    }
    player.process(10 * NANOS_PER_SEC);
    player.on_start_processing();
    {
        let playback_info = last_reported_playback_info.lock().unwrap();
        assert_eq!(
            *playback_info,
            Some(PlaybackInfo { state: SoundState::Stopped, position: 12 * NANOS_PER_SEC })
        )
    }
}

#[test]
fn stopped_player_stays_stopped() {
    let mut player = SoundPlayer::new(four_sample_sound());
    for _ in 0..5 {
        player.process(NANOS_PER_SEC);
    }
    assert_eq!(player.state(), SoundState::Stopped);
    // Further advances are no-ops: silence out, state and position frozen.
    for _ in 0..3 {
        assert_eq!(player.process(NANOS_PER_SEC), Frame::zero());
        assert_eq!(player.state(), SoundState::Stopped);
    }
    player.on_start_processing();
}

#[test]
fn paused_player_is_frozen() {
    let mut player = SoundPlayer::new(four_sample_sound());
    player.state = SoundState::Paused;
    assert_eq!(player.process(NANOS_PER_SEC), Frame::zero());
    assert_eq!(player.position, 0);
    assert_eq!(player.state(), SoundState::Paused);
}

#[test]
fn stops_on_first_advance_past_duration() {
    // Duration 3 s; steps of 2 s cross it on the second advance.
    let sound = StaticSound::from_frames(
        1,
        vec![Frame::zero(), Frame::zero(), Frame::zero()],
        StaticSoundSettings::new(),
    );
    assert_eq!(sound.duration, 3 * NANOS_PER_SEC);
    let mut player = SoundPlayer::new(sound);
    player.process(2 * NANOS_PER_SEC);
    assert_eq!(player.state(), SoundState::Playing);
    player.process(2 * NANOS_PER_SEC);
    assert_eq!(player.state(), SoundState::Stopped);
    assert_eq!(player.position, 4 * NANOS_PER_SEC);
}

#[test]
fn sound_state_tags_and_playing() {
    assert_eq!(SoundState::from_u8(0), SoundState::Playing);
    assert_eq!(SoundState::from_u8(1), SoundState::Pausing);
    assert_eq!(SoundState::from_u8(2), SoundState::Paused);
    assert_eq!(SoundState::from_u8(3), SoundState::Stopping);
    assert_eq!(SoundState::from_u8(4), SoundState::Stopped);
    assert!(SoundState::Playing.is_playing());
    assert!(SoundState::Pausing.is_playing());
    assert!(SoundState::Stopping.is_playing());
    assert!(!SoundState::Paused.is_playing());
    assert!(!SoundState::Stopped.is_playing());
}

#[test]
fn from_frames_records_settings() {
    let sound = StaticSound::from_frames(
        2,
        vec![Frame::new(1, -1); 6],
        StaticSoundSettings { default_loop_behavior: Some(LoopBehavior { start_position: 7 }) },
    );
    assert_eq!(sound.sample_rate, 2);
    assert_eq!(sound.duration, 3 * NANOS_PER_SEC);
    assert_eq!(sound.default_loop_behavior, Some(LoopBehavior { start_position: 7 }));
}
