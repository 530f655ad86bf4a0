//! Temporal debouncing: a bounded FIFO window of recent per-frame detection flags,
//! reported as detected only when enough of the window agrees.

use vstd::prelude::*;
use std::collections::VecDeque;
use std::ops::Index;

verus! {

broadcast use vstd::std_specs::vecdeque::group_vec_dequeue_axioms;

/// The window after recording one more flag: the oldest entry leaves once
/// the window is full.
pub open spec fn spec_push_window(w: Seq<bool>, size: int, v: bool) -> Seq<bool> {
    if w.len() >= size {
        w.drop_first().push(v)
    } else {
        w.push(v)
    }
}

/// How many entries of the first `i` are `true`.
pub open spec fn spec_count_true_prefix(w: Seq<bool>, i: int) -> int
    decreases i,
{
    if i <= 0 {
        0
    } else {
        spec_count_true_prefix(w, i - 1) + (if w[i - 1] {
            1int
        } else {
            0int
        })
    }
}

/// How many entries of the window are `true`.
pub open spec fn spec_count_true(w: Seq<bool>) -> int {
    spec_count_true_prefix(w, w.len() as int)
}

/// The debounced detection: at least `threshold` of the window's entries are
/// `true`.
pub open spec fn spec_debounced(w: Seq<bool>, threshold: int) -> bool {
    spec_count_true(w) >= threshold
}

/// Records one raw detection flag in the window, evicting the oldest entry once the
/// window holds `size` detection flags, and returns how many entries of the updated
/// window are `true`.
pub fn push_and_count(history: &mut VecDeque<bool>, size: usize, flag: bool) -> (n: usize)
    requires
        1 <= size,
        old(history)@.len() <= size,
    ensures
        final(history)@ == spec_push_window(old(history)@, size as int, flag),
        final(history)@.len() <= size,
        n == spec_count_true(final(history)@),
{
    if history.len() >= size {
        history.pop_front();
    }
    history.push_back(flag);

    let mut count: usize = 0;
    let mut i: usize = 0;
    let len = history.len();
    while i < len
        invariant
            len == history@.len(),
            len <= size,
            i <= len,
            count == spec_count_true_prefix(history@, i as int),
            count <= i,
        decreases len - i,
    {
        if *history.index(i) {
            count = count + 1;
        }
        i = i + 1;
    }
    count
}

} // verus!
