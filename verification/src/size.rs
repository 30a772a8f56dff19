//! Size negotiation arithmetic.
//!
//! A configure event carries a border-inclusive size suggestion. The engine
//! subtracts the decoration borders, raises the result to the window's
//! minimum size, caps it at the maximum size when one is set, and finally
//! floors each dimension at 1 so that the surface never degenerates.

use vstd::prelude::*;

verus! {

/// Largest logical dimension the engine accepts for a content size.
///
/// Border-inclusive sizes are sent over the wire as signed 32-bit values,
/// so a content dimension must leave headroom for the widest border that a
/// renderer may report.
pub const MAX_WINDOW_DIM: u32 = 0x3FFF_FFFF;

/// A dimension floored at 1, the smallest size a surface may have.
pub open spec fn floor1(v: u32) -> u32 {
    if v >= 1 {
        v
    } else {
        1
    }
}

/// One clamped dimension: `max(min(max(v, lo), hi), 1)`, where the cap `hi`
/// applies only when a maximum size is set.
pub open spec fn clamp_dim(v: int, lo: int, hi: Option<int>) -> int {
    let raised = if v >= lo {
        v
    } else {
        lo
    };
    let capped = match hi {
        Option::Some(h) => if raised <= h {
            raised
        } else {
            h
        },
        Option::None => raised,
    };
    if capped >= 1 {
        capped
    } else {
        1
    }
}

/// The width cap taken from an optional maximum size.
pub open spec fn width_bound(max_size: Option<(u32, u32)>) -> Option<int> {
    match max_size {
        Option::Some(m) => Option::Some(m.0 as int),
        Option::None => Option::None,
    }
}

/// The height cap taken from an optional maximum size.
pub open spec fn height_bound(max_size: Option<(u32, u32)>) -> Option<int> {
    match max_size {
        Option::Some(m) => Option::Some(m.1 as int),
        Option::None => Option::None,
    }
}

/// The content size negotiated from a border-inclusive suggestion: borders
/// subtracted, then both dimensions clamped.
pub open spec fn negotiated_size(
    suggested: (u32, u32),
    border_width: u32,
    border_height: u32,
    min_size: (u32, u32),
    max_size: Option<(u32, u32)>,
) -> (u32, u32) {
    (
        clamp_dim(
            suggested.0 - border_width,
            min_size.0 as int,
            width_bound(max_size),
        ) as u32,
        clamp_dim(
            suggested.1 - border_height,
            min_size.1 as int,
            height_bound(max_size),
        ) as u32,
    )
}

/// A clamped dimension lies between the bounds whenever they are ordered
/// and the cap is at least 1.
pub proof fn lemma_clamp_dim_bounded(v: int, lo: int, hi: int)
    requires
        lo <= hi,
        1 <= hi,
    ensures
        lo <= clamp_dim(v, lo, Option::Some(hi)) <= hi,
{
}

/// For every minimum and maximum size with `min <= max` componentwise and
/// `max` at least 1 in each dimension, the size negotiated from any
/// suggestion lies between the two bounds componentwise.
pub proof fn lemma_negotiated_size_within_bounds(
    suggested: (u32, u32),
    border_width: u32,
    border_height: u32,
    min_size: (u32, u32),
    max_size: (u32, u32),
)
    requires
        min_size.0 <= max_size.0,
        min_size.1 <= max_size.1,
        1 <= max_size.0,
        1 <= max_size.1,
    ensures
        ({
            let r = negotiated_size(
                suggested,
                border_width,
                border_height,
                min_size,
                Option::Some(max_size),
            );
            min_size.0 <= r.0 <= max_size.0 && min_size.1 <= r.1 <= max_size.1
        }),
{
    lemma_clamp_dim_bounded(
        suggested.0 - border_width,
        min_size.0 as int,
        max_size.0 as int,
    );
    lemma_clamp_dim_bounded(
        suggested.1 - border_height,
        min_size.1 as int,
        max_size.1 as int,
    );
}

/// One clamped dimension, on machine integers. `v` is a border-subtracted
/// suggestion and may be negative; the result is at least 1.
pub fn clamp_dimension(v: i32, lo: u32, hi: Option<u32>) -> (r: u32)
    requires
        lo <= MAX_WINDOW_DIM,
        (hi matches Some(h) ==> h <= MAX_WINDOW_DIM),
    ensures
        r == clamp_dim(
            v as int,
            lo as int,
            match hi {
                Option::Some(h) => Option::Some(h as int),
                Option::None => Option::None,
            },
        ),
{
    let lo_i: i32 = lo as i32;
    let raised: i32 = if v >= lo_i {
        v
    } else {
        lo_i
    };
    let capped: i32 = match hi {
        Option::Some(h) => {
            let h_i: i32 = h as i32;
            if raised <= h_i {
                raised
            } else {
                h_i
            }
        },
        Option::None => raised,
    };
    if capped >= 1 {
        capped as u32
    } else {
        1
    }
}

} // verus!
