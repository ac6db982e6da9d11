//! Orders of steps: what a log that grows step by step holds.

use vstd::prelude::*;

verus! {

/// A log with one more step holds what it held before, and that step.
pub proof fn push_holds<T>(log: Seq<T>, step: T)
    ensures
        forall|s: T| #[trigger] log.push(step).contains(s) == (log.contains(s) || s == step),
{
    let longer = log.push(step);
    assert forall|s: T| #[trigger] longer.contains(s) == (log.contains(s) || s == step) by {
        assert(longer[log.len() as int] == step);
        if log.contains(s) {
            let i = choose|i: int| 0 <= i < log.len() && log[i] == s;
            assert(longer[i] == s);
        }
        if longer.contains(s) && s != step {
            let i = choose|i: int| 0 <= i < longer.len() && longer[i] == s;
            assert(log[i] == s);
        }
    }
}

} // verus!
