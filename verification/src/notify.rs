use vstd::prelude::*;

verus! {

/// Wake-up rule of the notification broadcaster: a waiter that last saw
/// generation `last_seen_generation` is released exactly when the store's
/// counter has moved past it.
pub open spec fn wakes(current_generation: u64, last_seen_generation: u64) -> bool {
    current_generation > last_seen_generation
}

/// Decide whether a blocked consumer that last saw `last_seen_generation` may
/// return with the current snapshot. The serving layer couples this decision
/// to its own condition wait: re-checking it after every wake-up makes the
/// wait return only once the counter has advanced, with intermediate updates
/// coalesced into the latest one.
pub fn should_wake(current_generation: u64, last_seen_generation: u64) -> (wake: bool)
    ensures
        wake == wakes(current_generation, last_seen_generation),
{
    current_generation > last_seen_generation
}

/// Law: one accepted update wakes every waiter still pending when it commits.
/// A waiter registers by recording a generation it has already seen, so its
/// mark is at most the counter's value before the update; one increment then
/// satisfies the wake-up rule for all of them at once.
pub proof fn lemma_update_wakes_pending_waiters(
    old_generation: u64,
    new_generation: u64,
    last_seen_generation: u64,
)
    requires
        new_generation == old_generation + 1,
        last_seen_generation <= old_generation,
    ensures
        wakes(new_generation, last_seen_generation),
{
}

}
