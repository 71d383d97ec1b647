//! The arena, the command and reclamation channels, and the mixer.

use kira::effect::delay::{Delay, DelaySettings};
use kira::frame::{Frame, FIXED_ONE, NANOS_PER_SEC};
use kira::manager::sound_players::SoundPlayers;
use kira::manager::{ArenaFull, ProtocolError, SoundCommand};
use kira::sound::player::SoundPlayer;
use kira::sound::static_sound::StaticSound;
use kira::sound::{SoundId, SoundState};
use kira::track::{Effect, Mixer, TrackId};
use kira::value::{Parameters, Value};

fn short_sound() -> StaticSound {
    // One second of audio at 1 frame per second, a constant full-scale frame.
    StaticSound::from_frames(1, vec![Frame::from_mono(FIXED_ONE)], Default::default())
}

#[test]
fn reserve_then_insert_never_fails() {
    let (producer, _consumer) = ringbuf::RingBuffer::new(8).split();
    let mut sound_players = SoundPlayers::new(4, producer);
    // Every reserved slot accepts exactly one insert.
    for _ in 0..4 {
        let id = sound_players.reserve_slot().expect("the arena should have room");
        let command = SoundCommand::Add(id, SoundPlayer::new(short_sound()));
        assert!(sound_players.run_command(command).is_ok());
    }
    // The arena is full now: reservation itself reports exhaustion as the
    // recoverable capacity failure.
    assert!(matches!(sound_players.reserve_slot(), Err(ArenaFull)));
}

#[test]
fn controller_reservations_insert_too() {
    // The raw controller is the handle a control thread holds remotely; a
    // key reserved through it behaves like one from reserve_slot.
    let (producer, _consumer) = ringbuf::RingBuffer::new(8).split();
    let mut sound_players = SoundPlayers::new(2, producer);
    let controller = sound_players.controller();
    let key = controller.try_reserve().expect("the arena should have room");
    let command = SoundCommand::Add(SoundId::new(key), SoundPlayer::new(short_sound()));
    assert!(sound_players.run_command(command).is_ok());
}

#[test]
fn double_insert_is_a_protocol_violation() {
    let (producer, _consumer) = ringbuf::RingBuffer::new(8).split();
    let mut sound_players = SoundPlayers::new(4, producer);
    let id = sound_players.reserve_slot().unwrap();
    assert!(sound_players.run_command(SoundCommand::Add(id, SoundPlayer::new(short_sound()))).is_ok());
    let second = sound_players.run_command(SoundCommand::Add(id, SoundPlayer::new(short_sound())));
    assert_eq!(second, Err(ProtocolError::SlotNotReserved));
}

#[test]
fn foreign_key_is_rejected() {
    let (producer, _consumer) = ringbuf::RingBuffer::new(8).split();
    let mut small = SoundPlayers::new(1, producer);
    // A key reserved on a bigger, unrelated arena names a slot the small
    // arena does not have.
    let other: atomic_arena::Arena<u8> = atomic_arena::Arena::new(3);
    let other_controller = other.controller();
    let _ = other_controller.try_reserve().unwrap();
    let _ = other_controller.try_reserve().unwrap();
    let foreign = other_controller.try_reserve().unwrap();
    let r = small.run_command(SoundCommand::Add(
        SoundId::new(foreign),
        SoundPlayer::new(short_sound()),
    ));
    assert_eq!(r, Err(ProtocolError::InvalidId));
}

#[test]
fn players_mix_into_their_tracks() {
    let (producer, _consumer) = ringbuf::RingBuffer::new(8).split();
    let mut sound_players = SoundPlayers::new(4, producer);
    for _ in 0..2 {
        let id = sound_players.reserve_slot().unwrap();
        let command = SoundCommand::Add(id, SoundPlayer::new(short_sound()));
        sound_players.run_command(command).unwrap();
    }
    let mut mixer = Mixer::new();
    sound_players.process(NANOS_PER_SEC / 2, &mut mixer);
    // Both players target the main track; their frames sum there.
    assert_eq!(mixer.main.input, Frame::from_mono(2 * FIXED_ONE));
    let parameters = Parameters::new();
    let out = mixer.process(NANOS_PER_SEC / 2, &parameters);
    assert_eq!(out, Frame::from_mono(2 * FIXED_ONE));
    // Processing cleared the accumulator for the next block.
    assert_eq!(mixer.main.input, Frame::zero());
}

#[test]
fn stopped_players_are_swept_into_the_queue() {
    let (producer, mut consumer) = ringbuf::RingBuffer::new(8).split();
    let mut sound_players = SoundPlayers::new(4, producer);
    let id = sound_players.reserve_slot().unwrap();
    sound_players
        .run_command(SoundCommand::Add(id, SoundPlayer::new(short_sound())))
        .unwrap();
    let mut mixer = Mixer::new();
    // Nothing to sweep while the player is still audible.
    sound_players.on_start_processing();
    assert!(consumer.pop().is_none());
    // Advance past the one-second duration: the player stops.
    sound_players.process(2 * NANOS_PER_SEC, &mut mixer);
    sound_players.on_start_processing();
    let reclaimed = consumer.pop().expect("the stopped player should be swept");
    assert_eq!(reclaimed.state(), SoundState::Stopped);
    assert!(consumer.pop().is_none());
    // The swept player no longer plays: the next block writes nothing.
    let mut next_block_mixer = Mixer::new();
    sound_players.process(NANOS_PER_SEC, &mut next_block_mixer);
    assert_eq!(next_block_mixer.main.input, Frame::zero());
}

#[test]
fn sweep_resumes_when_the_queue_has_room_again() {
    // A reclamation queue with room for one player, but two players stop.
    let (producer, mut consumer) = ringbuf::RingBuffer::new(1).split();
    let mut sound_players = SoundPlayers::new(4, producer);
    for _ in 0..2 {
        let id = sound_players.reserve_slot().unwrap();
        sound_players
            .run_command(SoundCommand::Add(id, SoundPlayer::new(short_sound())))
            .unwrap();
    }
    let mut mixer = Mixer::new();
    sound_players.process(2 * NANOS_PER_SEC, &mut mixer);
    // First sweep: only one fits; the second is drained but held over —
    // never dropped on the processing thread.
    sound_players.on_start_processing();
    assert_eq!(consumer.pop().map(|p| p.state()), Some(SoundState::Stopped));
    assert!(consumer.pop().is_none());
    assert!(sound_players.pending.is_some());
    // With the queue drained, a later block queues the held-over player.
    sound_players.on_start_processing();
    assert_eq!(consumer.pop().map(|p| p.state()), Some(SoundState::Stopped));
    assert!(consumer.pop().is_none());
    assert!(sound_players.pending.is_none());
}

#[test]
fn writing_to_a_missing_track_is_a_no_op() {
    let mut mixer = Mixer::new();
    let track = mixer.add_sub_track();
    assert_eq!(track, TrackId::Sub(0));
    mixer.add_to_track(TrackId::Sub(7), Frame::from_mono(999));
    assert_eq!(mixer.main.input, Frame::zero());
    assert_eq!(mixer.sub_tracks[0].1.input, Frame::zero());
    mixer.add_to_track(track, Frame::from_mono(5));
    assert_eq!(mixer.sub_tracks[0].1.input, Frame::from_mono(5));
    assert!(!mixer.add_effect(TrackId::Sub(7), Effect::Filter(kira::effect::filter::Filter::new(
        kira::effect::filter::FilterSettings::new(),
    ))));
}

#[test]
fn sub_tracks_sum_into_main_through_their_effects() {
    let mut mixer = Mixer::new();
    let track = mixer.add_sub_track();
    // A one-sample delay on the sub-track: its signal reaches the main
    // track one block late.
    let mut delay = Delay::new(
        DelaySettings::new()
            .delay_time(Value::Fixed(500_000_000))
            .feedback(Value::Fixed(0))
            .buffer_length(10 * NANOS_PER_SEC),
    );
    delay.init(2);
    assert!(mixer.add_effect(track, Effect::Delay(delay)));
    let parameters = Parameters::new();
    let dt = 500_000_000;
    mixer.add_to_track(track, Frame::from_mono(4096));
    let mut outputs: Vec<i64> = Vec::new();
    for _ in 0..4 {
        outputs.push(mixer.process(dt, &parameters).left);
    }
    assert_eq!(outputs, vec![0, 0, 4096, 0]);
}

#[test]
fn players_can_target_sub_tracks() {
    let (producer, _consumer) = ringbuf::RingBuffer::new(8).split();
    let mut sound_players = SoundPlayers::new(4, producer);
    let mut mixer = Mixer::new();
    let track = mixer.add_sub_track();
    let id = sound_players.reserve_slot().unwrap();
    let mut player = SoundPlayer::new(short_sound());
    player.set_track(track);
    sound_players.run_command(SoundCommand::Add(id, player)).unwrap();
    sound_players.process(NANOS_PER_SEC / 2, &mut mixer);
    // The frame lands on the sub-track, not on main.
    assert_eq!(mixer.main.input, Frame::zero());
    assert_eq!(mixer.sub_tracks[0].1.input, Frame::from_mono(FIXED_ONE));
    // The mixer then folds the sub-track into the main output.
    let parameters = Parameters::new();
    assert_eq!(mixer.process(NANOS_PER_SEC / 2, &parameters), Frame::from_mono(FIXED_ONE));
}
