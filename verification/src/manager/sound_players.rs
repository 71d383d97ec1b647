//! The arena of live sound players and its cross-thread protocol.
//!
//! The control thread reserves a slot through the [`Controller`], builds a
//! player, and sends it through the command channel; the processing thread
//! applies commands, advances every player once per block, and sweeps
//! stopped players into the bounded reclamation queue so that their memory
//! is freed on the control thread, never on the real-time path.

use vstd::prelude::*;

use crate::backing::{
    arena_accepting, arena_capacity, arena_controller, arena_drain_one_stopped, arena_ids,
    arena_insert, arena_new, arena_players, arena_replace, arena_reserve, queue_capacity,
    queue_players, queue_push,
};
use crate::frame::Frame;
use crate::manager::{ArenaFull, ProtocolError, SoundCommand};
use crate::sound::player::SoundPlayer;
use crate::sound::static_sound::{StaticSound, StaticSoundSettings};
use crate::sound::{SoundId, SoundState};
use crate::track::{Mixer, MixerView, TrackId, TrackView};

verus! {

/// The mixer after one player's output frame is added to the bus it
/// targets; a write to a bus that does not exist changes nothing.
pub open spec fn spec_mixer_added(m: MixerView, id: TrackId, frame: Frame) -> MixerView {
    match id {
        TrackId::Main => MixerView {
            main: TrackView { input: m.main.input.spec_add(frame), effects: m.main.effects },
            sub_tracks: m.sub_tracks,
        },
        TrackId::Sub(n) => MixerView {
            main: m.main,
            sub_tracks: Seq::new(
                m.sub_tracks.len(),
                |j: int| crate::track::spec_bus_added(m.sub_tracks[j], n, frame),
            ),
        },
    }
}

/// The mixer after the players named by `ids`, in order, have each added
/// their output frame to their target bus — players not in a playing state
/// write nothing.
pub open spec fn spec_mixer_after_players(
    m: MixerView,
    players: Map<SoundId, SoundPlayer<StaticSound>>,
    ids: Seq<SoundId>,
    dt: u64,
) -> MixerView
    decreases ids.len(),
{
    if ids.len() == 0 {
        m
    } else {
        let rest = spec_mixer_after_players(m, players, ids.drop_last(), dt);
        let player = players[ids.last()];
        if player.state.spec_is_playing() {
            spec_mixer_added(rest, player.track, player.spec_output())
        } else {
            rest
        }
    }
}

/// The players a reclamation sweep hands over: the old arena values named
/// by `removed`, in sweep order.
pub open spec fn swept_players(
    players: Map<SoundId, SoundPlayer<StaticSound>>,
    removed: Seq<SoundId>,
) -> Seq<SoundPlayer<StaticSound>> {
    Seq::new(removed.len(), |k: int| players[removed[k]])
}

/// The sound players that currently exist: an arena of players on the
/// processing thread, and the producer end of the queue that carries
/// stopped players back to the control thread.
/// The one-element overflow of the reclamation sweep: the pending player,
/// if any, as a sequence.
pub open spec fn pending_seq(pending: Option<SoundPlayer<StaticSound>>) -> Seq<
    SoundPlayer<StaticSound>,
> {
    match pending {
        Some(player) => seq![player],
        None => Seq::empty(),
    }
}

/// The sound players that currently exist: an arena of players on the
/// processing thread, and the producer end of the queue that carries
/// stopped players back to the control thread.
pub struct SoundPlayers {
    /// The slotted arena holding every live player.
    pub sound_players: atomic_arena::Arena<SoundPlayer<StaticSound>>,
    /// The producer end of the bounded reclamation queue.
    pub unused_sound_player_producer: ringbuf::Producer<SoundPlayer<StaticSound>>,
    /// A stopped player already swept out of the arena whose push found
    /// the queue full: it is held here — never dropped on the processing
    /// thread — and queued first on a later block.
    pub pending: Option<SoundPlayer<StaticSound>>,
}

impl SoundPlayers {
    /// Well-formed players: a held-over pending player is stopped, and the
    /// arena holds finitely many players.
    pub open spec fn wf(self) -> bool {
        &&& match self.pending {
            Some(player) => player.state == SoundState::Stopped,
            None => true,
        }
        &&& arena_players(self.sound_players).dom().finite()
    }

    /// Creates the player arena with room for `capacity` players, sweeping
    /// stopped players into the given queue. An arena needs at least one
    /// slot: reserving on a slotless arena is not meaningful.
    pub fn new(
        capacity: usize,
        unused_sound_player_producer: ringbuf::Producer<SoundPlayer<StaticSound>>,
    ) -> (r: SoundPlayers)
        requires
            capacity >= 1,
        ensures
            r.wf(),
            arena_players(r.sound_players) == Map::<SoundId, SoundPlayer<StaticSound>>::empty(),
            arena_accepting(r.sound_players).finite(),
            arena_accepting(r.sound_players).len() == capacity,
            arena_capacity(r.sound_players) == capacity,
            r.unused_sound_player_producer == unused_sound_player_producer,
            r.pending is None,
    {
        SoundPlayers {
            sound_players: arena_new(capacity),
            unused_sound_player_producer,
            pending: None,
        }
    }

    /// The handle through which the control thread reserves arena slots
    /// ahead of sending an add command.
    pub fn controller(&self) -> atomic_arena::Controller {
        arena_controller(&self.sound_players)
    }

    /// Reserves a free arena slot ahead of an add command, so that the
    /// insert the command performs is guaranteed to succeed. Fails exactly
    /// when the arena is out of slots — a recoverable capacity failure,
    /// reported to the caller rather than dropped.
    pub fn reserve_slot(&self) -> (r: Result<SoundId, ArenaFull>)
        requires
            arena_capacity(self.sound_players) >= 1,
        ensures
            match r {
                Ok(id) => arena_accepting(self.sound_players).contains(id) && !arena_players(
                    self.sound_players,
                ).dom().contains(id),
                Err(e) => e == ArenaFull,
            },
    {
        arena_reserve(&self.sound_players)
    }

    /// Start-of-block housekeeping: sweeps stopped players out of the arena
    /// into the reclamation queue.
    pub fn on_start_processing(&mut self)
        requires
            old(self).wf(),
        ensures
            final(self).wf(),
            queue_capacity(final(self).unused_sound_player_producer) == queue_capacity(
                old(self).unused_sound_player_producer,
            ),
            arena_capacity(final(self).sound_players) == arena_capacity(
                old(self).sound_players,
            ),
            queue_players(old(self).unused_sound_player_producer).is_prefix_of(
                queue_players(final(self).unused_sound_player_producer),
            ),
            forall|i: int|
                queue_players(old(self).unused_sound_player_producer).len() <= i < queue_players(
                    final(self).unused_sound_player_producer,
                ).len() ==> (#[trigger] queue_players(final(self).unused_sound_player_producer)[i]).state
                    == SoundState::Stopped,
            arena_players(final(self).sound_players).dom().subset_of(
                arena_players(old(self).sound_players).dom(),
            ),
            forall|id: SoundId|
                arena_players(final(self).sound_players).dom().contains(id)
                    ==> #[trigger] arena_players(final(self).sound_players)[id] == arena_players(
                    old(self).sound_players,
                )[id],
            forall|id: SoundId|
                arena_players(old(self).sound_players).dom().contains(id) && (
                #[trigger] arena_players(old(self).sound_players)[id]).state
                    != SoundState::Stopped ==> arena_players(final(self).sound_players).dom().contains(
                    id,
                ),
            final(self).pending is None ==> forall|id: SoundId|
                arena_players(final(self).sound_players).dom().contains(id) ==> (
                #[trigger] arena_players(final(self).sound_players)[id]).state
                    != SoundState::Stopped,
            arena_accepting(old(self).sound_players).subset_of(
                arena_accepting(final(self).sound_players),
            ),
            exists|removed: Seq<SoundId>|
                {
                    &&& removed.no_duplicates()
                    &&& forall|k: int|
                        0 <= k < removed.len() ==> arena_players(
                            old(self).sound_players,
                        ).dom().contains(#[trigger] removed[k]) && arena_players(
                            old(self).sound_players,
                        )[removed[k]].state == SoundState::Stopped
                    &&& arena_players(final(self).sound_players) == arena_players(
                        old(self).sound_players,
                    ).remove_keys(removed.to_set())
                    &&& queue_players(final(self).unused_sound_player_producer) + pending_seq(
                        final(self).pending,
                    ) == queue_players(old(self).unused_sound_player_producer) + pending_seq(
                        old(self).pending,
                    ) + #[trigger] swept_players(arena_players(old(self).sound_players), removed)
                },
    {
        self.remove_unused_sound_players();
    }

    /// Sweeps stopped players into the reclamation queue, one at a time:
    /// first the player a previous block could not queue, then each
    /// stopped player drained from the arena. Every queued player is
    /// stopped at the moment of its sweep; players that are not stopped
    /// stay in the arena untouched. A push that finds the queue full ends
    /// the sweep for this block — it never waits — and the player in hand
    /// is held over, to be queued first on a later block.
    #[verifier::loop_isolation(false)]
    fn remove_unused_sound_players(&mut self)
        requires
            old(self).wf(),
        ensures
            final(self).wf(),
            queue_capacity(final(self).unused_sound_player_producer) == queue_capacity(
                old(self).unused_sound_player_producer,
            ),
            arena_capacity(final(self).sound_players) == arena_capacity(
                old(self).sound_players,
            ),
            queue_players(old(self).unused_sound_player_producer).is_prefix_of(
                queue_players(final(self).unused_sound_player_producer),
            ),
            forall|i: int|
                queue_players(old(self).unused_sound_player_producer).len() <= i < queue_players(
                    final(self).unused_sound_player_producer,
                ).len() ==> (#[trigger] queue_players(final(self).unused_sound_player_producer)[i]).state
                    == SoundState::Stopped,
            arena_players(final(self).sound_players).dom().subset_of(
                arena_players(old(self).sound_players).dom(),
            ),
            forall|id: SoundId|
                arena_players(final(self).sound_players).dom().contains(id)
                    ==> #[trigger] arena_players(final(self).sound_players)[id] == arena_players(
                    old(self).sound_players,
                )[id],
            forall|id: SoundId|
                arena_players(old(self).sound_players).dom().contains(id) && (
                #[trigger] arena_players(old(self).sound_players)[id]).state
                    != SoundState::Stopped ==> arena_players(final(self).sound_players).dom().contains(
                    id,
                ),
            final(self).pending is None ==> forall|id: SoundId|
                arena_players(final(self).sound_players).dom().contains(id) ==> (
                #[trigger] arena_players(final(self).sound_players)[id]).state
                    != SoundState::Stopped,
            arena_accepting(old(self).sound_players).subset_of(
                arena_accepting(final(self).sound_players),
            ),
            exists|removed: Seq<SoundId>|
                {
                    &&& removed.no_duplicates()
                    &&& forall|k: int|
                        0 <= k < removed.len() ==> arena_players(
                            old(self).sound_players,
                        ).dom().contains(#[trigger] removed[k]) && arena_players(
                            old(self).sound_players,
                        )[removed[k]].state == SoundState::Stopped
                    &&& arena_players(final(self).sound_players) == arena_players(
                        old(self).sound_players,
                    ).remove_keys(removed.to_set())
                    &&& queue_players(final(self).unused_sound_player_producer) + pending_seq(
                        final(self).pending,
                    ) == queue_players(old(self).unused_sound_player_producer) + pending_seq(
                        old(self).pending,
                    ) + #[trigger] swept_players(arena_players(old(self).sound_players), removed)
                },
    {
        let ghost players0 = arena_players(self.sound_players);
        let ghost q0 = queue_players(self.unused_sound_player_producer);
        let ghost pend0 = pending_seq(self.pending);
        let ghost no_ids = Seq::<SoundId>::empty();
        proof {
            assert(players0.remove_keys(no_ids.to_set()) =~= players0);
            assert(swept_players(players0, no_ids) =~= Seq::<SoundPlayer<StaticSound>>::empty());
        }
        // First retry the player a previous block could not queue.
        match self.pending.take() {
            Some(player) => {
                match queue_push(&mut self.unused_sound_player_producer, player) {
                    Ok(()) => {
                        proof {
                            assert((q0 + pend0).take(q0.len() as int) =~= q0);
                            assert(queue_players(self.unused_sound_player_producer) =~= q0
                                + pend0);
                        }
                    },
                    Err(player) => {
                        self.pending = Some(player);
                        proof {
                            assert(q0.take(q0.len() as int) =~= q0);
                            assert(q0 + pending_seq(self.pending) =~= q0 + pend0 + swept_players(
                                players0,
                                no_ids,
                            ));
                        }
                        return ;
                    },
                }
            },
            None => {
                proof {
                    assert(q0 + pend0 =~= q0);
                    assert(q0.take(q0.len() as int) =~= q0);
                }
            },
        }
        let ghost q1 = queue_players(self.unused_sound_player_producer);
        let ghost mut removed: Seq<SoundId> = Seq::empty();
        proof {
            assert(q1 + swept_players(players0, removed) =~= q1);
        }
        loop
            invariant
                self.pending is None,
                self.wf(),
                queue_capacity(self.unused_sound_player_producer) == queue_capacity(
                    old(self).unused_sound_player_producer,
                ),
                arena_capacity(self.sound_players) == arena_capacity(old(self).sound_players),
                arena_accepting(old(self).sound_players).subset_of(
                    arena_accepting(self.sound_players),
                ),
                q1 == q0 + pend0,
                removed.no_duplicates(),
                forall|k: int|
                    0 <= k < removed.len() ==> players0.dom().contains(#[trigger] removed[k])
                        && players0[removed[k]].state == SoundState::Stopped,
                arena_players(self.sound_players) == players0.remove_keys(removed.to_set()),
                queue_players(self.unused_sound_player_producer) == q1 + swept_players(
                    players0,
                    removed,
                ),
            decreases arena_players(self.sound_players).dom().len(),
        {
            match arena_drain_one_stopped(&mut self.sound_players) {
                None => {
                    proof {
                        assert(queue_players(self.unused_sound_player_producer).take(
                            q0.len() as int,
                        ) =~= q0);
                        assert(queue_players(self.unused_sound_player_producer) + pending_seq(
                            self.pending,
                        ) =~= q0 + pend0 + swept_players(players0, removed));
                    }
                    return ;
                },
                Some(entry) => {
                    proof {
                        assert(players0.remove_keys(removed.to_set()).dom().contains(entry.0));
                        assert(players0.contains_pair(entry.0, entry.1));
                        assert(!removed.contains(entry.0));
                        let removed_pre = removed;
                        removed = removed.push(entry.0);
                        assert(removed.drop_last() =~= removed_pre);
                        assert forall|x: SoundId|
                            removed.to_set().contains(x) <==> removed_pre.to_set().insert(
                                entry.0,
                            ).contains(x) by {
                            if removed_pre.to_set().contains(x) {
                                let i = choose|i: int|
                                    0 <= i < removed_pre.len() && removed_pre[i] == x;
                                assert(removed[i] == x);
                            }
                            if x == entry.0 {
                                assert(removed[removed.len() - 1] == x);
                            }
                            if removed.to_set().contains(x) {
                                let i = choose|i: int| 0 <= i < removed.len() && removed[i] == x;
                                if i < removed.len() - 1 {
                                    assert(removed_pre[i] == x);
                                }
                            }
                        }
                        assert(removed.to_set() =~= removed_pre.to_set().insert(entry.0));
                        assert(arena_players(self.sound_players) =~= players0.remove_keys(
                            removed.to_set(),
                        ));
                        assert(swept_players(players0, removed) =~= swept_players(
                            players0,
                            removed_pre,
                        ).push(players0[entry.0]));
                    }
                    match queue_push(&mut self.unused_sound_player_producer, entry.1) {
                        Ok(()) => {
                            proof {
                                assert(queue_players(self.unused_sound_player_producer) =~= q1
                                    + swept_players(players0, removed));
                            }
                        },
                        Err(player) => {
                            self.pending = Some(player);
                            proof {
                                assert(queue_players(self.unused_sound_player_producer).take(
                                    q0.len() as int,
                                ) =~= q0);
                                assert(queue_players(self.unused_sound_player_producer)
                                    + pending_seq(self.pending) =~= q0 + pend0 + swept_players(
                                    players0,
                                    removed,
                                ));
                            }
                            return ;
                        },
                    }
                },
            }
        }
    }

    /// Applies a command from the control thread, storing the player at
    /// the arena slot that was reserved for it. The required reservation
    /// — which [`Self::reserve_slot`] establishes and nothing but this
    /// insert consumes — is exactly what makes the insert succeed, so a
    /// verified caller cannot violate the reserve-then-insert protocol.
    /// An unverified caller that breaks it (an unreserved, stale or
    /// doubly-used id) gets the explicit [`ProtocolError`] at run time,
    /// with nothing changed; per the engine's error taxonomy that is a bug
    /// between the two threads, to be treated as fatal.
    pub fn run_command(&mut self, command: SoundCommand) -> (r: Result<(), ProtocolError>)
        requires
            old(self).wf(),
            arena_accepting(old(self).sound_players).contains(command.spec_id()),
        ensures
            final(self).wf(),
            final(self).unused_sound_player_producer == old(self).unused_sound_player_producer,
            final(self).pending == old(self).pending,
            arena_capacity(final(self).sound_players) == arena_capacity(
                old(self).sound_players,
            ),
            r is Ok,
            arena_players(final(self).sound_players) == arena_players(
                old(self).sound_players,
            ).insert(command.spec_id(), command.spec_player()),
            !arena_players(old(self).sound_players).dom().contains(command.spec_id()),
            arena_accepting(final(self).sound_players) == arena_accepting(
                old(self).sound_players,
            ).remove(command.spec_id()),
    {
        match command {
            SoundCommand::Add(id, sound_player) => arena_insert(
                &mut self.sound_players,
                id,
                sound_player,
            ),
        }
    }

    /// Advances every player by one block step and mixes each playing
    /// player's output frame into its target track.
    ///
    /// Every player in the arena is advanced exactly once; the arena keys
    /// do not change. The mixer takes the playing players' outputs in the
    /// arena's iteration order, which is unspecified but stable within the
    /// call; stopped and paused players write nothing.
    pub fn process(&mut self, dt: u64, mixer: &mut Mixer)
        requires
            old(self).wf(),
            old(mixer).wf(),
            dt >= 1,
        ensures
            final(self).wf(),
            final(self).unused_sound_player_producer == old(self).unused_sound_player_producer,
            final(self).pending == old(self).pending,
            arena_capacity(final(self).sound_players) == arena_capacity(
                old(self).sound_players,
            ),
            final(mixer).wf(),
            arena_players(final(self).sound_players).dom() == arena_players(
                old(self).sound_players,
            ).dom(),
            arena_accepting(final(self).sound_players) == arena_accepting(
                old(self).sound_players,
            ),
            forall|id: SoundId|
                arena_players(old(self).sound_players).dom().contains(id)
                    ==> #[trigger] arena_players(final(self).sound_players)[id] == arena_players(
                    old(self).sound_players,
                )[id].spec_advanced(dt),
            exists|ids: Seq<SoundId>|
                ids.no_duplicates() && ids.to_set() == arena_players(
                    old(self).sound_players,
                ).dom() && final(mixer).view() == #[trigger] spec_mixer_after_players(
                    old(mixer).view(),
                    arena_players(old(self).sound_players),
                    ids,
                    dt,
                ),
    {
        let ids = arena_ids(&self.sound_players);
        let ghost players0 = arena_players(old(self).sound_players);
        let ghost m0 = old(mixer).view();
        let n = ids.len();
        let mut i: usize = 0;
        proof {
            assert(ids@.take(0) =~= Seq::<SoundId>::empty());
        }
        while i < n
            invariant
                0 <= i <= n,
                dt >= 1,
                ids@.len() == n,
                ids@.no_duplicates(),
                ids@.to_set() == players0.dom(),
                self.unused_sound_player_producer == old(self).unused_sound_player_producer,
                self.pending == old(self).pending,
                old(self).wf(),
                mixer.wf(),
                arena_players(self.sound_players).dom() == players0.dom(),
                arena_accepting(self.sound_players) == arena_accepting(old(self).sound_players),
                arena_capacity(self.sound_players) == arena_capacity(old(self).sound_players),
                forall|k: int|
                    0 <= k < i ==> #[trigger] arena_players(self.sound_players)[ids@[k]]
                        == players0[ids@[k]].spec_advanced(dt),
                forall|k: int|
                    i <= k < n ==> #[trigger] arena_players(self.sound_players)[ids@[k]]
                        == players0[ids@[k]],
                mixer.view() == spec_mixer_after_players(m0, players0, ids@.take(i as int), dt),
            decreases n - i,
        {
            let id = ids[i];
            proof {
                assert(ids@.to_set().contains(ids@[i as int]));
            }
            let dummy = SoundPlayer::new(
                StaticSound::from_frames(1, Vec::new(), StaticSoundSettings::new()),
            );
            let mut player = arena_replace(&mut self.sound_players, id, dummy);
            let was_playing = player.state().is_playing();
            let out = player.process(dt);
            if was_playing {
                let ghost m_before = mixer.view();
                mixer.add_to_track(player.track(), out);
                proof {
                    if let TrackId::Sub(sub) = player.track {
                        assert(mixer.view().sub_tracks =~= spec_mixer_added(
                            m_before,
                            player.track,
                            out,
                        ).sub_tracks);
                    }
                    assert(mixer.view() == spec_mixer_added(m_before, player.track, out));
                }
            }
            let _dummy_back = arena_replace(&mut self.sound_players, id, player);
            proof {
                assert(arena_players(self.sound_players).dom() =~= players0.dom());
                assert(ids@.take(i + 1).drop_last() =~= ids@.take(i as int));
                assert(ids@.take(i + 1).last() == ids@[i as int]);
            }
            i = i + 1;
        }
        proof {
            assert(ids@.take(n as int) =~= ids@);
            assert(final(mixer).view() == spec_mixer_after_players(m0, players0, ids@, dt));
        }
    }
}

} // verus!
