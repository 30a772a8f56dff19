//! A minimal decoration renderer.
//!
//! [`MinimalFrame`] keeps the complete bookkeeping a renderer owes the
//! engine — visibility, border geometry, displayed states, tracked seats,
//! title — without drawing any pixels. It draws a uniform edge around the
//! content and a header bar above it, both of which vanish while the
//! frame is hidden, and counts the redraws and seat changes it is asked
//! for, which makes the engine's behaviour observable in tests.

use vstd::prelude::*;

use crate::frame::{Frame, FrameView, State};
use crate::seat::lemma_remove_unique;

verus! {

/// Widest edge a [`MinimalFrame`] accepts.
pub const MAX_EDGE: u32 = 0x3FFF;

/// Tallest header a [`MinimalFrame`] accepts.
pub const MAX_HEADER: u32 = 0x7FFF;

/// A decoration renderer that keeps the books and draws nothing.
pub struct MinimalFrame {
    hidden: bool,
    resizable: bool,
    size: (u32, u32),
    states: Vec<State>,
    seats: Vec<u32>,
    title: String,
    /// Width of the uniform edge drawn around the content.
    edge: u32,
    /// Height of the header bar drawn above the content.
    header: u32,
    redraws: u64,
    seat_registrations: u64,
    seat_removals: u64,
}

/// Whether two state vectors hold the same states in the same order.
fn states_equal(a: &Vec<State>, b: &Vec<State>) -> (r: bool)
    ensures
        r == (a@ == b@),
{
    if a.len() != b.len() {
        return false;
    }
    let mut i: usize = 0;
    while i < a.len()
        invariant
            0 <= i <= a@.len(),
            a@.len() == b@.len(),
            forall|j: int| 0 <= j < i ==> a@[j] == b@[j],
        decreases a@.len() - i,
    {
        if a[i] != b[i] {
            return false;
        }
        i += 1;
    }
    proof {
        assert(a@ =~= b@);
    }
    true
}

/// An owned copy of a state vector.
fn copy_states(states: &Vec<State>) -> (r: Vec<State>)
    ensures
        r@ == states@,
{
    let mut r: Vec<State> = Vec::new();
    let mut i: usize = 0;
    while i < states.len()
        invariant
            0 <= i <= states@.len(),
            r@ == states@.take(i as int),
        decreases states@.len() - i,
    {
        r.push(states[i]);
        proof {
            assert(states@.take(i as int).push(states@[i as int]) =~= states@.take(i + 1));
        }
        i += 1;
    }
    proof {
        assert(states@.take(states@.len() as int) =~= states@);
    }
    r
}

impl MinimalFrame {
    #[verifier::type_invariant]
    spec fn type_inv(&self) -> bool {
        &&& self.seats@.no_duplicates()
        &&& self.edge <= MAX_EDGE
        &&& self.header <= MAX_HEADER
    }

    /// Create a hidden renderer that will draw a uniform `edge` around
    /// the content and a `header` bar above it once shown. It starts
    /// hidden, awaiting the outcome of the decoration negotiation, with
    /// no states, no seats and an empty title.
    pub fn new(edge: u32, header: u32) -> (r: MinimalFrame)
        requires
            edge <= MAX_EDGE,
            header <= MAX_HEADER,
        ensures
            r.view() == (FrameView {
                hidden: true,
                resizable: true,
                size: (0, 0),
                states: Seq::empty(),
                seats: Set::empty(),
                title: Seq::empty(),
                border_width: 0,
                border_height: 0,
                location: (0, 0),
            }),
    {
        let r = MinimalFrame {
            hidden: true,
            resizable: true,
            size: (0, 0),
            states: Vec::new(),
            seats: Vec::new(),
            title: String::new(),
            edge,
            header,
            redraws: 0,
            seat_registrations: 0,
            seat_removals: 0,
        };
        proof {
            assert(r.seats@.to_set() =~= Set::<u32>::empty());
        }
        r
    }

    /// How many times the engine asked for a redraw.
    pub fn redraws(&self) -> (r: u64) {
        self.redraws
    }

    /// How many times a seat was registered.
    pub fn seat_registrations(&self) -> (r: u64) {
        self.seat_registrations
    }

    /// How many times a seat was removed.
    pub fn seat_removals(&self) -> (r: u64) {
        self.seat_removals
    }

    /// Whether the decorations are currently hidden.
    pub fn hidden(&self) -> (r: bool)
        ensures
            r == self.view().hidden,
    {
        self.hidden
    }

    /// The content size the decorations were last sized for.
    pub fn size(&self) -> (r: (u32, u32))
        ensures
            r == self.view().size,
    {
        self.size
    }

    /// How many seats are currently tracked.
    pub fn seat_count(&self) -> (r: usize)
        ensures
            r == self.view().seats.len(),
    {
        proof {
            use_type_invariant(&*self);
            self.seats@.unique_seq_to_set();
        }
        self.seats.len()
    }
}

impl Frame for MinimalFrame {
    /// This renderer has nothing to configure.
    type Config = ();

    closed spec fn view(&self) -> FrameView {
        FrameView {
            hidden: self.hidden,
            resizable: self.resizable,
            size: self.size,
            states: self.states@,
            seats: self.seats@.to_set(),
            title: self.title@,
            border_width: if self.hidden {
                0
            } else {
                (2 * self.edge) as u32
            },
            border_height: if self.hidden {
                0
            } else {
                (2 * self.edge + self.header) as u32
            },
            location: if self.hidden {
                (0, 0)
            } else {
                ((-(self.edge as int)) as i32, (-(self.edge as int + self.header as int)) as i32)
            },
        }
    }

    fn set_states(&mut self, states: &Vec<State>) -> (need_refresh: bool) {
        proof {
            use_type_invariant(&*self);
        }
        let changed = !states_equal(&self.states, states);
        self.states = copy_states(states);
        changed
    }

    fn set_hidden(&mut self, hidden: bool) {
        proof {
            use_type_invariant(&*self);
        }
        self.hidden = hidden;
    }

    fn set_resizable(&mut self, resizable: bool) {
        proof {
            use_type_invariant(&*self);
        }
        self.resizable = resizable;
    }

    fn new_seat(&mut self, seat: u32) {
        proof {
            use_type_invariant(&*self);
        }
        let mut known = false;
        let mut i: usize = 0;
        while i < self.seats.len()
            invariant
                0 <= i <= self.seats@.len(),
                known == exists|j: int| 0 <= j < i && self.seats@[j] == seat,
            decreases self.seats@.len() - i,
        {
            if self.seats[i] == seat {
                known = true;
            }
            i += 1;
        }
        if !known {
            let mut ids: Vec<u32> = Vec::new();
            core::mem::swap(&mut ids, &mut self.seats);
            let ghost old_ids = ids@;
            ids.push(seat);
            proof {
                old_ids.lemma_push_to_set_commute(seat);
                assert(forall|k: int| 0 <= k < old_ids.len() ==> old_ids[k] != seat);
            }
            self.seats = ids;
        } else {
            proof {
                assert(self.seats@.to_set().insert(seat) =~= self.seats@.to_set());
            }
        }
        if self.seat_registrations != u64::MAX {
            self.seat_registrations = self.seat_registrations + 1;
        }
    }

    fn remove_seat(&mut self, seat: u32) {
        proof {
            use_type_invariant(&*self);
        }
        let mut found: Option<usize> = Option::None;
        let mut i: usize = 0;
        while i < self.seats.len()
            invariant
                0 <= i <= self.seats@.len(),
                match found {
                    Option::Some(k) => 0 <= k < i && self.seats@[k as int] == seat,
                    Option::None => forall|j: int| 0 <= j < i ==> self.seats@[j] != seat,
                },
            decreases self.seats@.len() - i,
        {
            if self.seats[i] == seat {
                found = Option::Some(i);
            }
            i += 1;
        }
        match found {
            Option::Some(index) => {
                let mut ids: Vec<u32> = Vec::new();
                core::mem::swap(&mut ids, &mut self.seats);
                let ghost old_ids = ids@;
                ids.remove(index);
                proof {
                    lemma_remove_unique(old_ids, index as int, seat);
                }
                self.seats = ids;
            },
            Option::None => {
                proof {
                    assert(self.seats@.to_set().remove(seat) =~= self.seats@.to_set());
                }
            },
        }
        if self.seat_removals != u64::MAX {
            self.seat_removals = self.seat_removals + 1;
        }
    }

    fn resize(&mut self, newsize: (u32, u32)) {
        proof {
            use_type_invariant(&*self);
        }
        self.size = newsize;
    }

    fn redraw(&mut self) {
        proof {
            use_type_invariant(&*self);
        }
        if self.redraws != u64::MAX {
            self.redraws = self.redraws + 1;
        }
    }

    fn subtract_borders(&self, width: i32, height: i32) -> (r: (i32, i32)) {
        proof {
            use_type_invariant(&*self);
        }
        if self.hidden {
            (width, height)
        } else {
            (width - (2 * self.edge) as i32, height - (2 * self.edge + self.header) as i32)
        }
    }

    fn add_borders(&self, width: i32, height: i32) -> (r: (i32, i32)) {
        proof {
            use_type_invariant(&*self);
        }
        if self.hidden {
            (width, height)
        } else {
            (width + (2 * self.edge) as i32, height + (2 * self.edge + self.header) as i32)
        }
    }

    fn location(&self) -> (r: (i32, i32)) {
        proof {
            use_type_invariant(&*self);
        }
        if self.hidden {
            (0, 0)
        } else {
            (-(self.edge as i32), -((self.edge + self.header) as i32))
        }
    }

    fn set_config(&mut self, _config: ()) {
        proof {
            use_type_invariant(&*self);
        }
    }

    fn set_title(&mut self, title: String) {
        proof {
            use_type_invariant(&*self);
        }
        self.title = title;
    }
}

} // verus!
