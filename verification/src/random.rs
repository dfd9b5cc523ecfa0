//! Random draws of the game (which hint to show, where the slit gap moves,
//! which impact sound plays).

use vstd::prelude::*;

verus! {

/// A random index in `low..=high`, drawn by `fastrand::usize(low..=high)` from
/// the thread's generator. The draw depends on the generator's hidden state,
/// so only its range is claimed; `fastrand::usize` panics on an empty range,
/// which `requires` leaves out.
#[verifier::external_body]
pub(crate) fn random_usize_in(low: usize, high: usize) -> (r: usize)
    requires
        low <= high,
    ensures
        low <= r <= high,
{
    fastrand::usize(low..=high)
}

/// A random draw, with the range it was drawn from.
pub struct Draw {
    /// The value drawn.
    pub value: usize,
    /// The range drawn from, both ends included.
    pub range: Ghost<(int, int)>,
}

/// A random index in `low..=high`, together with the range it was drawn
/// from, so that contracts can say which draw a decision rests on.
pub(crate) fn draw(low: usize, high: usize) -> (d: Draw)
    requires
        low <= high,
    ensures
        d.range@ == (low as int, high as int),
        low <= d.value <= high,
{
    Draw { value: random_usize_in(low, high), range: Ghost((low as int, high as int)) }
}

} // verus!
