//! The first place in a finite sequence at which a condition holds.
//!
//! The engine looks for a first item several times: the first occurrence that
//! fits a window, the first course or member of a given name, the first bracket
//! of a timestamp. This says once what "first" means.

use vstd::prelude::*;

verus! {

/// `index` is the least place from 0 up to `len` at which `holds` is true.
pub open spec fn is_first(holds: spec_fn(int) -> bool, len: int, index: int) -> bool {
    &&& 0 <= index < len
    &&& holds(index)
    &&& forall|earlier: int| 0 <= earlier < index ==> !#[trigger] holds(earlier)
}

/// The least place from 0 up to `len` at which `holds` is true, if there is one.
pub open spec fn first(holds: spec_fn(int) -> bool, len: int) -> Option<int> {
    if exists|index: int| is_first(holds, len, index) {
        Some(choose|index: int| is_first(holds, len, index))
    } else {
        None
    }
}

/// There is at most one first place, and [`first`] names it.
pub proof fn lemma_first_found(holds: spec_fn(int) -> bool, len: int, index: int)
    requires
        is_first(holds, len, index),
    ensures
        first(holds, len) == Some(index),
{
    let chosen = choose|i: int| is_first(holds, len, i);
    if chosen < index {
        assert(!holds(chosen));
    } else if index < chosen {
        assert(!holds(index));
    }
}

/// Where the condition holds at no place there is no first place.
pub proof fn lemma_first_absent(holds: spec_fn(int) -> bool, len: int)
    requires
        forall|i: int| 0 <= i < len ==> !#[trigger] holds(i),
    ensures
        first(holds, len) is None,
{
}

/// What [`first`] stands for: a place at which the condition holds and before
/// which it never does, or the fact that it holds nowhere.
pub proof fn lemma_first(holds: spec_fn(int) -> bool, len: int)
    ensures
        match first(holds, len) {
            Some(index) => is_first(holds, len, index),
            None => forall|i: int| 0 <= i < len ==> !#[trigger] holds(i),
        },
{
    if first(holds, len) is None {
        assert forall|i: int| 0 <= i < len implies !#[trigger] holds(i) by {
            if holds(i) {
                lemma_some_first(holds, len, i);
            }
        }
    }
}

/// Where the condition holds at some place below `len`, it holds at a first one.
proof fn lemma_some_first(holds: spec_fn(int) -> bool, len: int, at: int)
    requires
        0 <= at < len,
        holds(at),
    ensures
        exists|index: int| is_first(holds, len, index),
    decreases at,
{
    if exists|earlier: int| 0 <= earlier < at && #[trigger] holds(earlier) {
        let earlier = choose|earlier: int| 0 <= earlier < at && #[trigger] holds(earlier);
        lemma_some_first(holds, len, earlier);
    } else {
        assert(is_first(holds, len, at));
    }
}

} // verus!
