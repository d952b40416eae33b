//! The transition rule for a single cell.

use vstd::prelude::*;

verus! {

/// Whether a cell lives in the next generation, given whether it lives now and
/// how many of its eight neighbours live.
pub open spec fn lives_on(is_alive: bool, live_siblings: int) -> bool {
    if is_alive {
        live_siblings == 2 || live_siblings == 3
    } else {
        live_siblings == 3
    }
}

/// Applies the rule to one cell: a living cell survives with two or three
/// living neighbours, a dead cell comes alive with exactly three.
pub fn conways_law(is_alive: bool, live_siblings: u8) -> (next: bool)
    requires
        live_siblings < 9,
    ensures
        next == lives_on(is_alive, live_siblings as int),
{
    if is_alive {
        if live_siblings < 2 || live_siblings > 3 {
            return false;
        }
        return true;
    }
    if live_siblings == 3 {
        return true;
    }
    false
}

/// The full rule table: among the counts zero to eight, a living cell stays
/// alive only on two and three, and a dead cell comes alive only on three.
pub proof fn rule_table(live_siblings: int)
    requires
        0 <= live_siblings <= 8,
    ensures
        lives_on(true, live_siblings) <==> (live_siblings == 2 || live_siblings == 3),
        lives_on(false, live_siblings) <==> live_siblings == 3,
{
}

} // verus!
