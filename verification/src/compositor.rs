//! Surface scale-factor bookkeeping.
//!
//! A surface can be shown on several outputs at once, each with its own
//! scale factor. The surface renders at the largest of them, and the
//! application is told only when that value actually changes. When the
//! surface leaves its last output, the factor is kept unchanged rather
//! than reset.

use vstd::prelude::*;

verus! {

/// The largest of a list of output scale factors, if any.
pub open spec fn largest_factor(factors: Seq<i32>) -> Option<i32>
    decreases factors.len(),
{
    if factors.len() == 0 {
        Option::None
    } else {
        match largest_factor(factors.drop_last()) {
            Option::Some(m) => Option::Some(
                if factors.last() > m {
                    factors.last()
                } else {
                    m
                },
            ),
            Option::None => Option::Some(factors.last()),
        }
    }
}

/// The scale factor a surface adopts given the factors of the outputs it
/// is currently on, and whether the application must be notified: the
/// largest factor when there is one — notifying exactly when it differs
/// from the current factor — and the current factor, silently, when the
/// surface has left its last output.
pub open spec fn scale_factor_update(current: i32, factors: Seq<i32>) -> (i32, bool) {
    match largest_factor(factors) {
        Option::Some(m) => (m, m != current),
        Option::None => (current, false),
    }
}

/// Compute the scale factor to adopt and whether to notify the
/// application, from the current factor and the factors of the outputs
/// the surface is on.
pub fn apply_scale_factors(current: i32, factors: &Vec<i32>) -> (r: (i32, bool))
    ensures
        r == scale_factor_update(current, factors@),
{
    let mut best: Option<i32> = Option::None;
    let mut i: usize = 0;
    while i < factors.len()
        invariant
            0 <= i <= factors@.len(),
            best == largest_factor(factors@.take(i as int)),
        decreases factors@.len() - i,
    {
        let f = factors[i];
        best = match best {
            Option::Some(m) => Option::Some(
                if f > m {
                    f
                } else {
                    m
                },
            ),
            Option::None => Option::Some(f),
        };
        proof {
            assert(factors@.take(i + 1).drop_last() =~= factors@.take(i as int));
            assert(factors@.take(i + 1).last() == factors@[i as int]);
        }
        i += 1;
    }
    proof {
        assert(factors@.take(factors@.len() as int) =~= factors@);
    }
    match best {
        Option::Some(m) => (m, m != current),
        Option::None => (current, false),
    }
}

} // verus!
