use vstd::prelude::*;
use crate::floatbits::{f64_bits_gt, f64_gt, F64_NEG_INFINITY_BITS};
use crate::state::{Action, GameState};
use crate::values::{value_index, ValueTable};

verus! {

/// The candidate action at one index of the fixed enumeration order:
/// the x acceleration is the outer loop, the y acceleration the inner
/// one, each ascending from -1 to 1, so index 0 is (-1, -1) and index 8
/// is (1, 1).
pub open spec fn action_of_index(i: int) -> Action {
    Action { xacc: (i / 3 - 1) as i32, yacc: (i % 3 - 1) as i32 }
}

/// The table entry a candidate index names at one position.
pub open spec fn candidate_value(values: Seq<u64>, pos: (i32, i32), i: int) -> u64 {
    values[value_index(pos, action_of_index(i))]
}

/// The greedy scan after the first `n` candidates: the retained action
/// and its value.  The scan starts from the zero action valued negative
/// infinity, and a candidate displaces the retained one only when its
/// value is strictly greater.
pub open spec fn greedy_best(values: Seq<u64>, pos: (i32, i32), n: int) -> (Action, u64)
    decreases n,
{
    if n <= 0 {
        (Action { xacc: 0, yacc: 0 }, F64_NEG_INFINITY_BITS)
    } else {
        let prev = greedy_best(values, pos, n - 1);
        let q = candidate_value(values, pos, n - 1);
        if f64_gt(q, prev.1) {
            (action_of_index(n - 1), q)
        } else {
            prev
        }
    }
}

/// The action the greedy policy selects at one position: the outcome of
/// scanning all nine candidates in the fixed order.
pub open spec fn select_greedy_spec(values: Seq<u64>, pos: (i32, i32)) -> Action {
    greedy_best(values, pos, 9).0
}

/// Selects the greedy action for the current state: the candidate with
/// the strictly greatest stored value, the earliest-enumerated one when
/// several share that value.
pub fn select_greedy(table: &ValueTable, state: GameState) -> (r: Action)
    requires
        table.wf(),
        state.position_on_grid(),
    ensures
        r == select_greedy_spec(table.values(), state.position),
        r.wf(),
{
    let mut best = Action { xacc: 0, yacc: 0 };
    let mut best_q: u64 = F64_NEG_INFINITY_BITS;
    let mut i: usize = 0;
    while i < 9
        invariant
            table.wf(),
            state.position_on_grid(),
            i <= 9,
            (best, best_q) == greedy_best(table.values(), state.position, i as int),
            best.wf(),
        decreases 9 - i,
    {
        let ax = (i / 3) as i32 - 1;
        let ay = (i % 3) as i32 - 1;
        let a = Action { xacc: ax, yacc: ay };
        assert(a == action_of_index(i as int));
        let q = table.get(state.position, a);
        if f64_bits_gt(q, best_q) {
            best = a;
            best_q = q;
        }
        i += 1;
    }
    best
}

/// For every prefix of the scan that ends at or before candidate `j`,
/// the value of candidate `j` is strictly greater than the retained one.
proof fn lemma_greedy_scan_below(values: Seq<u64>, pos: (i32, i32), j: int, n: int)
    requires
        0 <= n <= j < 9,
        f64_gt(candidate_value(values, pos, j), F64_NEG_INFINITY_BITS),
        forall|i: int|
            0 <= i < j ==> f64_gt(
                candidate_value(values, pos, j),
                #[trigger] candidate_value(values, pos, i),
            ),
    ensures
        f64_gt(candidate_value(values, pos, j), greedy_best(values, pos, n).1),
    decreases n,
{
    if n > 0 {
        lemma_greedy_scan_below(values, pos, j, n - 1);
    }
}

/// From candidate `j` onward, the scan retains candidate `j`.
proof fn lemma_greedy_scan_from(values: Seq<u64>, pos: (i32, i32), j: int, n: int)
    requires
        0 <= j < n <= 9,
        f64_gt(candidate_value(values, pos, j), F64_NEG_INFINITY_BITS),
        forall|i: int|
            0 <= i < j ==> f64_gt(
                candidate_value(values, pos, j),
                #[trigger] candidate_value(values, pos, i),
            ),
        forall|i: int|
            0 <= i < 9 ==> !f64_gt(
                #[trigger] candidate_value(values, pos, i),
                candidate_value(values, pos, j),
            ),
    ensures
        greedy_best(values, pos, n) == (action_of_index(j), candidate_value(values, pos, j)),
    decreases n,
{
    if n - 1 == j {
        lemma_greedy_scan_below(values, pos, j, j);
    } else {
        lemma_greedy_scan_from(values, pos, j, n - 1);
    }
}

/// Law: when candidate `j` attains the maximum (no candidate's value is
/// strictly greater), beats the scan's negative-infinity starting value,
/// and is strictly greater than every earlier candidate, the policy
/// selects exactly candidate `j`.  With ties for the maximum this makes
/// the earliest-enumerated tied candidate the selected one.
pub proof fn lemma_greedy_tie_break(values: Seq<u64>, pos: (i32, i32), j: int)
    requires
        0 <= j < 9,
        f64_gt(candidate_value(values, pos, j), F64_NEG_INFINITY_BITS),
        forall|i: int|
            0 <= i < j ==> f64_gt(
                candidate_value(values, pos, j),
                #[trigger] candidate_value(values, pos, i),
            ),
        forall|i: int|
            0 <= i < 9 ==> !f64_gt(
                #[trigger] candidate_value(values, pos, i),
                candidate_value(values, pos, j),
            ),
    ensures
        select_greedy_spec(values, pos) == action_of_index(j),
{
    lemma_greedy_scan_from(values, pos, j, 9);
}

} // verus!
