use vstd::prelude::*;

verus! {

/// One step of the rolling history: append `value`, then keep only the last
/// `capacity` entries.
pub open spec fn push_evict(h: Seq<u8>, value: u8, capacity: nat) -> Seq<u8> {
    let grown = h.push(value);
    if grown.len() <= capacity {
        grown
    } else {
        grown.subrange(grown.len() - capacity, grown.len() as int)
    }
}

/// The history that a run of accepted updates with values `values` leaves
/// behind, starting from an empty buffer.
pub open spec fn history_of(values: Seq<u8>, capacity: nat) -> Seq<u8>
    decreases values.len(),
{
    if values.len() == 0 {
        Seq::empty()
    } else {
        push_evict(history_of(values.drop_last(), capacity), values.last(), capacity)
    }
}

/// Law: the history of a run of accepted updates holds exactly the updated
/// values in arrival order while they fit the capacity, and exactly the last
/// `capacity` of them, oldest evicted first, once they do not.
pub proof fn lemma_history_keeps_latest(values: Seq<u8>, capacity: nat)
    ensures
        history_of(values, capacity).len() == if values.len() <= capacity {
            values.len() as int
        } else {
            capacity as int
        },
        values.len() <= capacity ==> history_of(values, capacity) == values,
        values.len() > capacity ==> history_of(values, capacity) == values.subrange(
            values.len() - capacity,
            values.len() as int,
        ),
    decreases values.len(),
{
    if values.len() == 0 {
    } else {
        let prefix = values.drop_last();
        let value = values.last();
        lemma_history_keeps_latest(prefix, capacity);
        let grown = history_of(prefix, capacity).push(value);
        if values.len() <= capacity {
            assert(grown =~= values);
        } else {
            assert(grown.subrange(grown.len() - capacity, grown.len() as int) =~= values.subrange(
                values.len() - capacity,
                values.len() as int,
            ));
        }
    }
}

}
