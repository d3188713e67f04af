//! General laws of the menu's selection arithmetic: iterating the two
//! selection moves lands on the expected index, and the two moves undo each
//! other exactly.

use vstd::prelude::*;
use vstd::arithmetic::div_mod::{
    lemma_add_mod_noop_right,
    lemma_mod_add_multiples_vanish,
    lemma_mod_bound,
    lemma_mod_self_0,
    lemma_small_mod,
};

use crate::state::AppView;

verus! {

/// The state after advancing the selection `n` times.
pub open spec fn advanced_times(v: AppView, n: nat) -> AppView
    decreases n,
{
    if n == 0 {
        v
    } else {
        advanced_times(v, (n - 1) as nat).advanced()
    }
}

/// The state after retreating the selection `n` times.
pub open spec fn retreated_times(v: AppView, n: nat) -> AppView
    decreases n,
{
    if n == 0 {
        v
    } else {
        retreated_times(v, (n - 1) as nat).retreated()
    }
}

/// Advancing the selection `n` times from index `i` lands on
/// `(i + n) % len`, and never touches the items or the result.
pub proof fn lemma_advanced_times(v: AppView, n: nat)
    requires
        v.inv(),
    ensures
        advanced_times(v, n).inv(),
        advanced_times(v, n).items == v.items,
        advanced_times(v, n).result == v.result,
        advanced_times(v, n).selected == (v.selected + n) % (v.items.len() as int),
    decreases n,
{
    let len: int = v.items.len() as int;
    if n == 0 {
        lemma_small_mod(v.selected as nat, v.items.len());
    } else {
        lemma_advanced_times(v, (n - 1) as nat);
        lemma_add_mod_noop_right(1, v.selected + n - 1, len);
        lemma_mod_bound(v.selected + n, len);
    }
}

/// Retreating the selection `n` times from index `i` lands on
/// `(i - n) % len`, normalized into `[0, len)`, and never touches the items
/// or the result.
pub proof fn lemma_retreated_times(v: AppView, n: nat)
    requires
        v.inv(),
    ensures
        retreated_times(v, n).inv(),
        retreated_times(v, n).items == v.items,
        retreated_times(v, n).result == v.result,
        retreated_times(v, n).selected == (v.selected - n) % (v.items.len() as int),
    decreases n,
{
    let len: int = v.items.len() as int;
    if n == 0 {
        lemma_small_mod(v.selected as nat, v.items.len());
    } else {
        lemma_retreated_times(v, (n - 1) as nat);
        let prev: int = retreated_times(v, (n - 1) as nat).selected;
        lemma_mod_add_multiples_vanish(prev - 1, len);
        lemma_add_mod_noop_right(-1, v.selected - (n - 1), len);
        lemma_mod_bound(v.selected - n, len);
    }
}

/// Advancing and then retreating — or retreating and then advancing —
/// restores a well-formed state exactly: same selection, same description,
/// same items and result.
pub proof fn lemma_advance_retreat_roundtrip(v: AppView)
    requires
        v.wf(),
    ensures
        v.advanced().retreated() == v,
        v.retreated().advanced() == v,
{
    let len: int = v.items.len() as int;
    let sel: int = v.selected;
    if sel + 1 < len {
        lemma_small_mod((sel + 1) as nat, len as nat);
    } else {
        lemma_mod_self_0(len);
    }
    lemma_mod_add_multiples_vanish(v.advanced().selected - 1, len);
    lemma_small_mod(sel as nat, len as nat);
    if sel > 0 {
        lemma_small_mod((sel - 1) as nat, len as nat);
    } else {
        lemma_small_mod((len - 1) as nat, len as nat);
    }
    lemma_mod_add_multiples_vanish(sel - 1, len);
    assert(v.advanced().retreated() =~= v);
    if v.retreated().selected + 1 == len {
        lemma_mod_self_0(len);
    } else {
        lemma_small_mod((v.retreated().selected + 1) as nat, len as nat);
    }
    assert(v.retreated().advanced() =~= v);
}

} // verus!
