//! What holds of an item over any number of successive updates.

use vstd::prelude::*;

use crate::inventory::one_day_later;
use crate::item::{Category, Item, MAX_ITEM_QUALITY, MIN_ITEM_QUALITY};

verus! {

/// `states` is a run of the inventory: each state is the one before it aged
/// by one update.
pub open spec fn successive_days(states: Seq<Seq<Item>>) -> bool {
    forall|k: int| 0 <= k < states.len() - 1 ==> one_day_later(#[trigger] states[k], states[k + 1])
}

/// A category whose quality is held within the bounds.
pub open spec fn is_bounded_category(cat: Category) -> bool {
    cat == Category::Aged || cat == Category::Conjured || cat == Category::Regular
}

/// Every state of a run has as many items as the first, and item `i` keeps
/// its name throughout.
proof fn lemma_names_kept(states: Seq<Seq<Item>>, i: int, k: int)
    requires
        successive_days(states),
        0 <= k < states.len(),
        0 <= i < states[0].len(),
    ensures
        states[k].len() == states[0].len(),
        states[k][i].name == states[0][i].name,
    decreases k,
{
    if k > 0 {
        lemma_names_kept(states, i, k - 1);
        assert(one_day_later(states[k - 1], states[k]));
    }
}

proof fn lemma_bounded_at(states: Seq<Seq<Item>>, i: int, k: int)
    requires
        successive_days(states),
        0 <= k < states.len(),
        0 <= i < states[0].len(),
        is_bounded_category(states[0][i].spec_category()),
        MIN_ITEM_QUALITY <= states[0][i].quality <= MAX_ITEM_QUALITY,
    ensures
        MIN_ITEM_QUALITY <= states[k][i].quality <= MAX_ITEM_QUALITY,
    decreases k,
{
    if k > 0 {
        lemma_bounded_at(states, i, k - 1);
        lemma_names_kept(states, i, k - 1);
        assert(one_day_later(states[k - 1], states[k]));
    }
}

/// An aged, conjured or regular item whose quality starts within
/// `[MIN_ITEM_QUALITY, MAX_ITEM_QUALITY]` stays within it after every update
/// of any run.
pub proof fn lemma_quality_stays_bounded(states: Seq<Seq<Item>>, i: int)
    requires
        successive_days(states),
        states.len() > 0,
        0 <= i < states[0].len(),
        is_bounded_category(states[0][i].spec_category()),
        MIN_ITEM_QUALITY <= states[0][i].quality <= MAX_ITEM_QUALITY,
    ensures
        forall|k: int|
            0 <= k < states.len() ==> MIN_ITEM_QUALITY <= (#[trigger] states[k])[i].quality
                <= MAX_ITEM_QUALITY,
{
    assert forall|k: int| 0 <= k < states.len() implies MIN_ITEM_QUALITY <= (
    #[trigger] states[k])[i].quality <= MAX_ITEM_QUALITY by {
        lemma_bounded_at(states, i, k);
    }
}

proof fn lemma_legendary_at(states: Seq<Seq<Item>>, i: int, k: int)
    requires
        successive_days(states),
        0 <= k < states.len(),
        0 <= i < states[0].len(),
        states[0][i].spec_category() == Category::Legendary,
    ensures
        states[k][i].sell_in == states[0][i].sell_in,
        states[k][i].quality == states[0][i].quality,
    decreases k,
{
    if k > 0 {
        lemma_legendary_at(states, i, k - 1);
        lemma_names_kept(states, i, k - 1);
        assert(one_day_later(states[k - 1], states[k]));
    }
}

/// The legendary item keeps its sell-in and quality through every update of
/// any run.
pub proof fn lemma_legendary_frozen(states: Seq<Seq<Item>>, i: int)
    requires
        successive_days(states),
        states.len() > 0,
        0 <= i < states[0].len(),
        states[0][i].spec_category() == Category::Legendary,
    ensures
        forall|k: int|
            0 <= k < states.len() ==> (#[trigger] states[k])[i].sell_in == states[0][i].sell_in
                && states[k][i].quality == states[0][i].quality,
{
    assert forall|k: int| 0 <= k < states.len() implies (#[trigger] states[k])[i].sell_in
        == states[0][i].sell_in && states[k][i].quality == states[0][i].quality by {
        lemma_legendary_at(states, i, k);
    }
}

proof fn lemma_sell_in_at(states: Seq<Seq<Item>>, i: int, k: int)
    requires
        successive_days(states),
        0 <= k < states.len(),
        0 <= i < states[0].len(),
        states[0][i].spec_category() != Category::Legendary,
    ensures
        states[k][i].sell_in == states[0][i].sell_in - k,
    decreases k,
{
    if k > 0 {
        lemma_sell_in_at(states, i, k - 1);
        lemma_names_kept(states, i, k - 1);
        assert(one_day_later(states[k - 1], states[k]));
    }
}

/// After `k` updates of any run, an item that is not legendary has a sell-in
/// `k` below the one it started with.
pub proof fn lemma_sell_in_counts_down(states: Seq<Seq<Item>>, i: int)
    requires
        successive_days(states),
        states.len() > 0,
        0 <= i < states[0].len(),
        states[0][i].spec_category() != Category::Legendary,
    ensures
        forall|k: int|
            0 <= k < states.len() ==> (#[trigger] states[k])[i].sell_in == states[0][i].sell_in
                - k,
{
    assert forall|k: int| 0 <= k < states.len() implies (#[trigger] states[k])[i].sell_in
        == states[0][i].sell_in - k by {
        lemma_sell_in_at(states, i, k);
    }
}

} // verus!
