//! Seat tracking.
//!
//! A seat is a group of input devices with one identity. The engine keeps
//! the set of seats that are known to have pointer capability and are not
//! defunct, and tells the frame when a seat starts or stops qualifying.
//! Duplicate registration and duplicate removal are no-ops.

use vstd::prelude::*;

verus! {

/// What the engine learns about one seat from a capability-change
/// notification.
#[derive(Copy, Clone, Debug, PartialEq, Eq, Structural)]
pub struct SeatInfo {
    /// The seat's identity.
    pub id: u32,
    /// Whether the seat currently has pointer capability.
    pub has_pointer: bool,
    /// Whether the seat has been removed by the server.
    pub defunct: bool,
}

/// What one capability-change notification did to the tracked set.
#[derive(Copy, Clone, Debug, PartialEq, Eq, Structural)]
pub enum SeatAction {
    /// The seat newly qualifies: it was registered with the frame.
    Added,
    /// The seat stopped qualifying: it was removed from the frame.
    Removed,
    /// Nothing changed.
    Unchanged,
}

/// A seat is tracked while it has pointer capability and is not defunct.
pub open spec fn seat_qualifies(has_pointer: bool, defunct: bool) -> bool {
    has_pointer && !defunct
}

/// How one capability-change notification updates the tracked set.
pub open spec fn seat_transition(
    seats: Set<u32>,
    id: u32,
    has_pointer: bool,
    defunct: bool,
) -> (Set<u32>, SeatAction) {
    let known = seats.contains(id);
    if !known && seat_qualifies(has_pointer, defunct) {
        (seats.insert(id), SeatAction::Added)
    } else if known && !seat_qualifies(has_pointer, defunct) {
        (seats.remove(id), SeatAction::Removed)
    } else {
        (seats, SeatAction::Unchanged)
    }
}

/// Removing the only occurrence of a value from a duplicate-free
/// sequence of seat identities removes exactly that value from the set of
/// tracked seats.
pub proof fn lemma_remove_unique(ids: Seq<u32>, index: int, id: u32)
    requires
        ids.no_duplicates(),
        0 <= index < ids.len(),
        ids[index] == id,
    ensures
        ids.remove(index).no_duplicates(),
        ids.remove(index).to_set() == ids.to_set().remove(id),
{
    let removed = ids.remove(index);
    ids.remove_ensures(index);
    assert(removed.no_duplicates()) by {
        assert forall|p: int, q: int|
            0 <= p < removed.len() && 0 <= q < removed.len() && p != q implies removed[p]
            != removed[q] by {
            let p0 = if p < index {
                p
            } else {
                p + 1
            };
            let q0 = if q < index {
                q
            } else {
                q + 1
            };
            assert(removed[p] == ids[p0] && removed[q] == ids[q0]);
        }
    }
    assert(removed.to_set() =~= ids.to_set().remove(id)) by {
        assert forall|x: u32| removed.contains(x) implies ids.contains(x) && x != id by {
            let k = choose|k: int| 0 <= k < removed.len() && removed[k] == x;
            let k0 = if k < index {
                k
            } else {
                k + 1
            };
            assert(ids[k0] == x);
            assert(x != id) by {
                if x == id {
                    assert(ids[k0] == ids[index] && k0 != index);
                }
            }
        }
        assert forall|x: u32| ids.contains(x) && x != id implies removed.contains(x) by {
            let k0 = choose|k0: int| 0 <= k0 < ids.len() && ids[k0] == x;
            if k0 < index {
                assert(removed[k0] == x);
            } else {
                assert(k0 != index);
                assert(removed[k0 - 1] == x);
            }
        }
    }
}

/// Seat set convergence: for a seat that is not yet tracked, the
/// notification sequence gain-pointer, lose-pointer, gain-pointer leaves
/// the seat tracked, registers it with the frame exactly twice (the two
/// `Added` actions) and removes it exactly once (the one `Removed`
/// action).
pub proof fn lemma_seat_convergence(seats0: Set<u32>, id: u32)
    requires
        !seats0.contains(id),
    ensures
        ({
            let (seats1, a1) = seat_transition(seats0, id, true, false);
            let (seats2, a2) = seat_transition(seats1, id, false, false);
            let (seats3, a3) = seat_transition(seats2, id, true, false);
            &&& a1 == SeatAction::Added
            &&& a2 == SeatAction::Removed
            &&& a3 == SeatAction::Added
            &&& seats3.contains(id)
        }),
{
}

} // verus!
