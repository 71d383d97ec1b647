//! The processing-thread side of the engine: resources and commands.

pub mod sound_players;

use vstd::prelude::*;

use crate::sound::player::SoundPlayer;
use crate::sound::static_sound::StaticSound;
use crate::sound::SoundId;

verus! {

/// The recoverable capacity failure: reserving a slot on a full arena.
/// Unlike a protocol violation this is expected under load — the caller
/// simply cannot start another sound until one is reclaimed.
#[derive(Debug, Clone, Copy, PartialEq, Eq, Structural)]
pub struct ArenaFull;

/// A violation of the arena's reserve-then-insert protocol. Such an error
/// signals a bug between the two threads, not bad input: callers are
/// expected to treat it as fatal rather than recover.
#[derive(Debug, Clone, Copy, PartialEq, Eq, Structural)]
pub enum ProtocolError {
    /// The slot index or generation does not name a slot of this arena.
    InvalidId,
    /// The slot is already occupied, so it cannot have been reserved.
    SlotNotReserved,
}

/// A command sent from the control thread to the processing thread through
/// the command channel, applied at the start of a block before any player
/// advances.
pub enum SoundCommand {
    /// Stores a player, built on the control thread, at the arena slot that
    /// was reserved for it.
    Add(SoundId, SoundPlayer<StaticSound>),
}

impl SoundCommand {
    /// The id a command addresses.
    pub open spec fn spec_id(self) -> SoundId {
        match self {
            SoundCommand::Add(id, _) => id,
        }
    }

    /// The player a command carries.
    pub open spec fn spec_player(self) -> SoundPlayer<StaticSound> {
        match self {
            SoundCommand::Add(_, player) => player,
        }
    }
}

} // verus!
