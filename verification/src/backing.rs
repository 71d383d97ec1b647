//! Trusted declarations of the outside types the engine stores.
//!
//! The slotted arena and its controller come from the `atomic_arena` crate;
//! the reclamation queue's producer end comes from `ringbuf`. The types are
//! declared opaque here, the contents of each container is named as a ghost
//! map or sequence, and every operation the engine uses is wrapped in a
//! function whose contract states, against the outside crate's source, what
//! the call does to those contents.

use vstd::prelude::*;

use crate::manager::{ArenaFull, ProtocolError};
use crate::sound::player::SoundPlayer;
use crate::sound::static_sound::StaticSound;
use crate::sound::{SoundId, SoundState};

verus! {

/// Declares `atomic_arena::Key`: the stable, generation-tagged index of an
/// arena slot.
#[verifier::external_type_specification]
#[verifier::external_body]
pub struct ExKey(atomic_arena::Key);

/// Declares `atomic_arena::Controller`: the handle through which the control
/// thread reserves arena slots ahead of insertion.
#[verifier::external_type_specification]
#[verifier::external_body]
pub struct ExController(atomic_arena::Controller);

/// Declares `atomic_arena::Arena`: the capacity-bounded slotted container
/// that holds the sound players on the processing thread.
#[verifier::external_type_specification]
#[verifier::external_body]
#[verifier::reject_recursive_types(T)]
pub struct ExArena<T>(atomic_arena::Arena<T>);

/// Declares `ringbuf::Producer`: the producer end of the bounded
/// single-producer single-consumer queue that carries stopped players back
/// to the control thread for deallocation.
#[verifier::external_type_specification]
#[verifier::external_body]
#[verifier::reject_recursive_types(T)]
pub struct ExProducer<T>(ringbuf::Producer<T>);

/// Declares `symphonia::core::errors::Error`: the decode-side failure the
/// file-loading boundary hands back.
#[verifier::external_type_specification]
#[verifier::external_body]
pub struct ExSymphoniaError(symphonia::core::errors::Error);

/// Declares `std::io::Error`: the input failure the file-loading boundary
/// hands back.
#[verifier::external_type_specification]
#[verifier::external_body]
pub struct ExIoError(std::io::Error);

/// Relies on `std::fmt::Display` for `std::io::Error`: renders the error's
/// own description.
#[verifier::external_body]
pub(crate) fn io_error_message(error: &std::io::Error) -> String {
    format!("{}", error)
}

/// Relies on `std::fmt::Display` for `symphonia::core::errors::Error`:
/// renders the error's own description.
#[verifier::external_body]
pub(crate) fn symphonia_error_message(error: &symphonia::core::errors::Error) -> String {
    format!("{}", error)
}

/// The ids whose insert the arena would accept: each names a slot of the
/// arena whose stored generation matches the id's and which holds no value.
/// A reservation hands out exactly such an id, and only inserting through
/// it occupies the slot, so an id stays in this set from its reservation
/// until its insert.
pub uninterp spec fn arena_accepting(a: atomic_arena::Arena<SoundPlayer<StaticSound>>) -> Set<
    SoundId,
>;

/// The number of slots the arena was created with. It never changes over
/// the arena's lifetime.
pub uninterp spec fn arena_capacity(a: atomic_arena::Arena<SoundPlayer<StaticSound>>) -> nat;

/// The players an arena holds, keyed by their sound ids. What a new arena
/// holds, and what each wrapped operation does to the contents, is stated on
/// the wrappers below, against `atomic_arena`'s source.
pub uninterp spec fn arena_players(a: atomic_arena::Arena<SoundPlayer<StaticSound>>) -> Map<
    SoundId,
    SoundPlayer<StaticSound>,
>;

/// The players this producer end has pushed into the reclamation queue
/// since its creation, oldest first. This is a log of the producer's own
/// writes — a function of the producer value alone — and says nothing
/// about what the consumer end, which drains the shared ring concurrently,
/// has already taken out.
pub uninterp spec fn queue_players(p: ringbuf::Producer<SoundPlayer<StaticSound>>) -> Seq<
    SoundPlayer<StaticSound>,
>;

/// The fixed capacity the reclamation queue was created with.
pub uninterp spec fn queue_capacity(p: ringbuf::Producer<SoundPlayer<StaticSound>>) -> nat;

/// The contents of an arena that holds nothing.
pub open spec fn no_players() -> Map<SoundId, SoundPlayer<StaticSound>> {
    Map::empty()
}

/// Relies on `atomic_arena::Arena::new`: a new arena holds nothing, and its
/// `capacity` slots — all free at their initial generation — each accept
/// one insert. An arena without slots is left out: its controller's free
/// list still points at a first slot, so reserving on it would fault
/// rather than report exhaustion.
#[verifier::external_body]
pub(crate) fn arena_new(capacity: usize) -> (arena: atomic_arena::Arena<
    SoundPlayer<StaticSound>,
>)
    requires
        capacity >= 1,
    ensures
        arena_players(arena) == no_players(),
        arena_accepting(arena).finite(),
        arena_accepting(arena).len() == capacity,
        arena_capacity(arena) == capacity,
{
    atomic_arena::Arena::new(capacity)
}

/// Relies on `atomic_arena::Arena::controller`: hands out the handle through
/// which the control thread reserves slots.
#[verifier::external_body]
pub(crate) fn arena_controller(
    a: &atomic_arena::Arena<SoundPlayer<StaticSound>>,
) -> atomic_arena::Controller {
    a.controller()
}

/// Relies on `atomic_arena::Controller::try_reserve`: a successful
/// reservation returns a key for a slot that the controller marked taken
/// and whose arena slot is free at the key's generation, so the arena
/// accepts exactly one insert through it. Nothing but that insert can
/// occupy the slot, and the sweep only ever touches occupied slots, so the
/// id stays accepted until the holder uses it. On a full arena the
/// reservation fails and nothing changes.
#[verifier::external_body]
pub(crate) fn arena_reserve(a: &atomic_arena::Arena<SoundPlayer<StaticSound>>) -> (r: Result<
    SoundId,
    ArenaFull,
>)
    requires
        arena_capacity(*a) >= 1,
    ensures
        match r {
            Ok(id) => arena_accepting(*a).contains(id) && !arena_players(*a).dom().contains(id),
            Err(e) => e == ArenaFull,
        },
{
    match a.controller().try_reserve() {
        Ok(key) => Ok(SoundId(key)),
        Err(atomic_arena::error::ArenaFull) => Err(ArenaFull),
    }
}

/// Relies on `atomic_arena::Arena::insert_with_key`: the outcome is a
/// function of the arena value and the key — the value is stored exactly
/// when the arena accepts the id (its slot exists, carries the id's
/// generation, and holds nothing). A foreign or stale key is rejected as
/// invalid, a key whose slot is already occupied is rejected as not
/// reserved, and a rejected insert stores nothing. A successful insert
/// occupies the slot, so the id alone leaves the accepted set.
#[verifier::external_body]
pub(crate) fn arena_insert(
    a: &mut atomic_arena::Arena<SoundPlayer<StaticSound>>,
    id: SoundId,
    player: SoundPlayer<StaticSound>,
) -> (r: Result<(), ProtocolError>)
    ensures
        r is Ok <==> arena_accepting(*old(a)).contains(id),
        arena_capacity(*final(a)) == arena_capacity(*old(a)),
        match r {
            Ok(()) => arena_players(*final(a)) == arena_players(*old(a)).insert(id, player)
                && !arena_players(*old(a)).dom().contains(id) && arena_accepting(*final(a))
                == arena_accepting(*old(a)).remove(id),
            Err(e) => arena_players(*final(a)) == arena_players(*old(a)) && arena_accepting(
                *final(a),
            ) == arena_accepting(*old(a)) && (e == ProtocolError::SlotNotReserved
                ==> arena_players(*old(a)).dom().contains(id)),
        },
{
    match a.insert_with_key(id.0, player) {
        Ok(()) => Ok(()),
        Err(atomic_arena::error::InsertWithKeyError::InvalidKey) => Err(ProtocolError::InvalidId),
        Err(atomic_arena::error::InsertWithKeyError::KeyNotReserved) => Err(
            ProtocolError::SlotNotReserved,
        ),
    }
}

/// Relies on `atomic_arena::Arena::iter`: visits every occupied slot exactly
/// once, yielding its key.
#[verifier::external_body]
pub(crate) fn arena_ids(a: &atomic_arena::Arena<SoundPlayer<StaticSound>>) -> (ids: Vec<SoundId>)
    ensures
        ids@.no_duplicates(),
        ids@.to_set() == arena_players(*a).dom(),
        ids@.len() == arena_players(*a).dom().len(),
{
    a.iter().map(|entry: (atomic_arena::Key, &SoundPlayer<StaticSound>)| SoundId(entry.0)).collect()
}

/// Relies on `atomic_arena::Arena::get_mut`: a live key leads to its item,
/// which `core::mem::replace` swaps for the replacement in place.
#[verifier::external_body]
pub(crate) fn arena_replace(
    a: &mut atomic_arena::Arena<SoundPlayer<StaticSound>>,
    id: SoundId,
    replacement: SoundPlayer<StaticSound>,
) -> (out: SoundPlayer<StaticSound>)
    requires
        arena_players(*old(a)).dom().contains(id),
    ensures
        out == arena_players(*old(a))[id],
        arena_players(*final(a)) == arena_players(*old(a)).insert(id, replacement),
        arena_accepting(*final(a)) == arena_accepting(*old(a)),
        arena_capacity(*final(a)) == arena_capacity(*old(a)),
{
    match a.get_mut(id.0) {
        Some(slot) => core::mem::replace(slot, replacement),
        None => replacement,  // unreachable: the key is live by precondition
    }
}

/// Relies on `atomic_arena::Arena::drain_filter`: the lazy iterator's
/// first step removes and yields the first stopped player in iteration
/// order together with its key, or yields nothing — removing nothing —
/// when no stopped player remains; dropping the iterator after one step
/// removes nothing further. A removal frees the slot under a fresh
/// generation, so accepted ids stay accepted and the capacity is
/// untouched.
#[verifier::external_body]
pub(crate) fn arena_drain_one_stopped(
    a: &mut atomic_arena::Arena<SoundPlayer<StaticSound>>,
) -> (drained: Option<(SoundId, SoundPlayer<StaticSound>)>)
    ensures
        arena_capacity(*final(a)) == arena_capacity(*old(a)),
        arena_accepting(*old(a)).subset_of(arena_accepting(*final(a))),
        match drained {
            Some(entry) => arena_players(*old(a)).contains_pair(entry.0, entry.1) && entry.1.state
                == SoundState::Stopped && arena_players(*final(a)) == arena_players(
                *old(a),
            ).remove(entry.0),
            None => arena_players(*final(a)) == arena_players(*old(a)) && forall|id: SoundId|
                arena_players(*old(a)).dom().contains(id) ==> (#[trigger] arena_players(
                    *old(a),
                )[id]).state != SoundState::Stopped,
        },
{
    a.drain_filter(|player: &SoundPlayer<StaticSound>| matches!(player.state(), SoundState::Stopped))
        .next()
        .map(|entry: (atomic_arena::Key, SoundPlayer<StaticSound>)| (SoundId(entry.0), entry.1))
}

/// Relies on `ringbuf::Producer::push`: when a free slot is observed the
/// item is appended to the ring and the push log grows by it; otherwise
/// the item is handed back unchanged and nothing is written. No claim is
/// made about when room exists — the consumer end frees slots
/// concurrently — only about what this producer wrote. The capacity never
/// changes.
#[verifier::external_body]
pub(crate) fn queue_push(
    p: &mut ringbuf::Producer<SoundPlayer<StaticSound>>,
    player: SoundPlayer<StaticSound>,
) -> (r: Result<(), SoundPlayer<StaticSound>>)
    ensures
        queue_capacity(*final(p)) == queue_capacity(*old(p)),
        match r {
            Ok(()) => queue_players(*final(p)) == queue_players(*old(p)).push(player),
            Err(e) => e == player && queue_players(*final(p)) == queue_players(*old(p)),
        },
{
    p.push(player)
}

} // verus!
