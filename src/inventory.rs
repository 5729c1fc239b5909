//! The inventory, and the pass that ages every item by one day.

use vstd::prelude::*;

use crate::item::{Item, next_quality, next_sell_in};

verus! {

/// An ordered list of items, aged together one day at a time.
pub struct GildedRose {
    pub items: Vec<Item>,
}

/// `after` is `before` aged by one day, item by item: names and order are
/// kept, and each item's two numbers follow the rule of its category.
pub open spec fn one_day_later(before: Seq<Item>, after: Seq<Item>) -> bool {
    &&& after.len() == before.len()
    &&& forall|i: int| 0 <= i < before.len() ==> {
        &&& (#[trigger] after[i]).name == before[i].name
        &&& after[i].quality == next_quality(
            before[i].spec_category(),
            before[i].sell_in as int,
            before[i].quality as int,
        )
        &&& after[i].sell_in == next_sell_in(before[i].spec_category(), before[i].sell_in as int)
    }
}

impl GildedRose {
    /// Every item can be aged by one day within its fields.
    pub open spec fn can_update(&self) -> bool {
        forall|i: int| 0 <= i < self.items@.len() ==> #[trigger] self.items@[i].can_advance()
    }

    /// An inventory of the given items, in their order.
    pub fn new(items: Vec<Item>) -> (r: GildedRose)
        ensures
            r.items@ == items@,
    {
        GildedRose { items }
    }

    /// Ages every item by one day.
    pub fn update_quality(&mut self)
        requires
            old(self).can_update(),
        ensures
            one_day_later(old(self).items@, final(self).items@),
    {
        let n: usize = self.items.len();
        let mut i: usize = 0;
        while i < n
            invariant
                n == self.items@.len(),
                i <= n,
                self.items@.len() == old(self).items@.len(),
                forall|j: int| i <= j < n ==> #[trigger] self.items@[j] == old(self).items@[j],
                forall|j: int| 0 <= j < i ==> {
                    &&& (#[trigger] self.items@[j]).name == old(self).items@[j].name
                    &&& self.items@[j].quality == next_quality(
                        old(self).items@[j].spec_category(),
                        old(self).items@[j].sell_in as int,
                        old(self).items@[j].quality as int,
                    )
                    &&& self.items@[j].sell_in == next_sell_in(
                        old(self).items@[j].spec_category(),
                        old(self).items@[j].sell_in as int,
                    )
                },
                old(self).can_update(),
            decreases n - i,
        {
            assert(old(self).items@[i as int].can_advance());
            self.items[i].advance_one_day();
            i = i + 1;
        }
    }
}

} // verus!
