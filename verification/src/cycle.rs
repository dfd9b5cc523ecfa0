//! Re-rolling a choice among `len` options so that it always changes.

use vstd::prelude::*;

verus! {

/// The option that follows `current` after drawing `roll`: the drawn one,
/// unless it is the current one, in which case the next one round.
pub open spec fn reroll(current: int, roll: int, len: int) -> int {
    if roll == current {
        (current + 1) % len
    } else {
        roll
    }
}

/// Re-rolls `current` among `len` options with the draw `roll`.
pub fn reroll_index(current: usize, roll: usize, len: usize) -> (next: usize)
    requires
        current < len,
        roll < len,
    ensures
        next == reroll(current as int, roll as int, len as int),
{
    if roll == current {
        (current + 1) % len
    } else {
        roll
    }
}

/// A re-roll stays among the options, and with two options or more it always
/// lands on another one than the current.
pub proof fn lemma_reroll_changes(current: int, roll: int, len: int)
    requires
        0 <= current < len,
        0 <= roll < len,
    ensures
        0 <= reroll(current, roll, len) < len,
        len >= 2 ==> reroll(current, roll, len) != current,
{
    if current + 1 < len {
        vstd::arithmetic::div_mod::lemma_small_mod((current + 1) as nat, len as nat);
    } else {
        vstd::arithmetic::div_mod::lemma_mod_self_0(len);
    }
}

} // verus!
