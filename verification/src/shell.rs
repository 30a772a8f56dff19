//! Decoding of shell-surface configure events.
//!
//! The wire protocol delivers the window states of a configure event as a
//! little-endian array of 32-bit codes, and a size suggestion as a pair
//! of signed integers where zero means "no suggestion". This module turns
//! both into the engine's types.

use vstd::prelude::*;

use crate::frame::State;

verus! {

/// The state named by one wire code, if the code is known. Unknown codes
/// come from newer servers and are ignored.
pub open spec fn spec_state_from_code(code: u32) -> Option<State> {
    if code == 1 {
        Option::Some(State::Maximized)
    } else if code == 2 {
        Option::Some(State::Fullscreen)
    } else if code == 3 {
        Option::Some(State::Resizing)
    } else if code == 4 {
        Option::Some(State::Activated)
    } else if code == 5 {
        Option::Some(State::TiledLeft)
    } else if code == 6 {
        Option::Some(State::TiledRight)
    } else if code == 7 {
        Option::Some(State::TiledTop)
    } else if code == 8 {
        Option::Some(State::TiledBottom)
    } else {
        Option::None
    }
}

/// The state named by one wire code, if the code is known.
pub fn state_from_code(code: u32) -> (r: Option<State>)
    ensures
        r == spec_state_from_code(code),
{
    match code {
        1 => Option::Some(State::Maximized),
        2 => Option::Some(State::Fullscreen),
        3 => Option::Some(State::Resizing),
        4 => Option::Some(State::Activated),
        5 => Option::Some(State::TiledLeft),
        6 => Option::Some(State::TiledRight),
        7 => Option::Some(State::TiledTop),
        8 => Option::Some(State::TiledBottom),
        _ => Option::None,
    }
}

/// A 32-bit code read little-endian from four bytes.
pub open spec fn le_code(b0: u8, b1: u8, b2: u8, b3: u8) -> u32 {
    (b0 + 256 * b1 + 65536 * b2 + 16777216 * b3) as u32
}

/// The states encoded in a wire array: one code per four bytes, read
/// little-endian, unknown codes skipped, a trailing fragment ignored.
pub open spec fn spec_states_from_bytes(bytes: Seq<u8>) -> Seq<State>
    decreases bytes.len(),
{
    if bytes.len() < 4 {
        Seq::empty()
    } else {
        let rest = spec_states_from_bytes(bytes.skip(4));
        match spec_state_from_code(le_code(bytes[0], bytes[1], bytes[2], bytes[3])) {
            Option::Some(s) => seq![s] + rest,
            Option::None => rest,
        }
    }
}

/// Decode the states array of a configure event.
pub fn states_from_bytes(bytes: &Vec<u8>) -> (states: Vec<State>)
    ensures
        states@ == spec_states_from_bytes(bytes@),
{
    let mut states: Vec<State> = Vec::new();
    let mut i: usize = 0;
    proof {
        assert(bytes@.skip(0) =~= bytes@);
        assert(Seq::<State>::empty() + spec_states_from_bytes(bytes@) =~= spec_states_from_bytes(
            bytes@,
        ));
    }
    while bytes.len() - i >= 4
        invariant
            0 <= i <= bytes@.len(),
            i % 4 == 0,
            states@ + spec_states_from_bytes(bytes@.skip(i as int)) == spec_states_from_bytes(
                bytes@,
            ),
        decreases bytes@.len() - i,
    {
        let code = bytes[i] as u32 + 256 * (bytes[i + 1] as u32) + 65536 * (bytes[i + 2] as u32)
            + 16777216 * (bytes[i + 3] as u32);
        proof {
            let tail = bytes@.skip(i as int);
            assert(tail.skip(4) =~= bytes@.skip(i + 4));
            assert(tail[0] == bytes@[i as int] && tail[1] == bytes@[i + 1] && tail[2] == bytes@[i
                + 2] && tail[3] == bytes@[i + 3]);
            assert(code == le_code(tail[0], tail[1], tail[2], tail[3]));
        }
        let ghost old_states = states@;
        match state_from_code(code) {
            Option::Some(s) => {
                states.push(s);
                proof {
                    assert(states@ =~= old_states + seq![s]);
                    assert(states@ + spec_states_from_bytes(bytes@.skip(i + 4))
                        =~= spec_states_from_bytes(bytes@));
                }
            },
            Option::None => {
                proof {
                    assert(states@ + spec_states_from_bytes(bytes@.skip(i + 4))
                        =~= spec_states_from_bytes(bytes@));
                }
            },
        }
        i = i + 4;
    }
    proof {
        assert(spec_states_from_bytes(bytes@.skip(i as int)) =~= Seq::<State>::empty());
        assert(states@ =~= states@ + spec_states_from_bytes(bytes@.skip(i as int)));
    }
    states
}

/// The size suggestion of a configure event: a dimension of zero (or a
/// negative one, which a well-behaved server never sends) means the
/// client should decide on its own.
pub fn suggested_size(width: i32, height: i32) -> (r: Option<(u32, u32)>)
    ensures
        r == (if width > 0 && height > 0 {
            Option::Some((width as u32, height as u32))
        } else {
            Option::<(u32, u32)>::None
        }),
{
    if width > 0 && height > 0 {
        Option::Some((width as u32, height as u32))
    } else {
        Option::None
    }
}

} // verus!
