//! Items, the categories their names place them in, and the rule by which
//! one day changes an item.

use vstd::prelude::*;

use crate::text::{append_decimal, decimal_of, same_text, starts_with};

verus! {

/// The lowest quality that the bounded categories fall to.
pub const MIN_ITEM_QUALITY: i64 = 0;

/// The highest quality that an aged item climbs to.
pub const MAX_ITEM_QUALITY: i64 = 50;

/// The name of the legendary item, which never changes.
pub const LEGENDARY_NAME: &'static str = "Sulfuras, Hand of Ragnaros";

/// The start of every backstage pass's name.
pub const BACKSTAGE_PREFIX: &'static str = "Backstage passes to";

/// The name of the item that gains quality with age.
pub const AGED_NAME: &'static str = "Aged Brie";

/// The start of every conjured item's name.
pub const CONJURED_PREFIX: &'static str = "Conjured";

/// The rule set that an item follows, fixed by its name.
#[derive(Clone, Copy, Debug, PartialEq, Eq, Structural)]
pub enum Category {
    Legendary,
    BackstagePass,
    Aged,
    Conjured,
    Regular,
}

/// The category of a name: exact names are tried before prefixes, in the
/// order legendary, backstage pass, aged, conjured; any other is regular.
pub open spec fn category_of(name: Seq<char>) -> Category {
    if name == LEGENDARY_NAME@ {
        Category::Legendary
    } else if BACKSTAGE_PREFIX@.is_prefix_of(name) {
        Category::BackstagePass
    } else if name == AGED_NAME@ {
        Category::Aged
    } else if CONJURED_PREFIX@.is_prefix_of(name) {
        Category::Conjured
    } else {
        Category::Regular
    }
}

pub open spec fn min_int(a: int, b: int) -> int {
    if a <= b { a } else { b }
}

pub open spec fn max_int(a: int, b: int) -> int {
    if a >= b { a } else { b }
}

/// The quality after one day, from the category and the sell-in and quality
/// before it.
pub open spec fn next_quality(cat: Category, sell_in: int, quality: int) -> int {
    match cat {
        Category::Legendary => quality,
        Category::BackstagePass => {
            if 6 <= sell_in <= 10 {
                quality + 2
            } else if 1 <= sell_in <= 5 {
                quality + 3
            } else if sell_in == 0 {
                0
            } else {
                quality + 1
            }
        },
        Category::Aged => min_int(
            quality + if sell_in == 0 { 2int } else { 1int },
            MAX_ITEM_QUALITY as int,
        ),
        Category::Conjured => max_int(
            quality - if sell_in == 0 { 4int } else { 2int },
            MIN_ITEM_QUALITY as int,
        ),
        Category::Regular => max_int(
            quality - if sell_in == 0 { 2int } else { 1int },
            MIN_ITEM_QUALITY as int,
        ),
    }
}

/// The sell-in after one day: one less, except for the legendary item.
pub open spec fn next_sell_in(cat: Category, sell_in: int) -> int {
    if cat == Category::Legendary {
        sell_in
    } else {
        sell_in - 1
    }
}

/// One day's change of an item fits the integer type of its fields.
pub open spec fn next_day_fits(cat: Category, sell_in: int, quality: int) -> bool {
    &&& i64::MIN <= next_sell_in(cat, sell_in)
    &&& next_quality(cat, sell_in, quality) <= i64::MAX
}

/// Finds the category of a name.
pub fn classify(name: &str) -> (r: Category)
    ensures
        r == category_of(name@),
{
    if same_text(name, LEGENDARY_NAME) {
        Category::Legendary
    } else if starts_with(name, BACKSTAGE_PREFIX) {
        Category::BackstagePass
    } else if same_text(name, AGED_NAME) {
        Category::Aged
    } else if starts_with(name, CONJURED_PREFIX) {
        Category::Conjured
    } else {
        Category::Regular
    }
}

/// An item of the inventory.
pub struct Item {
    pub name: String,
    pub sell_in: i64,
    pub quality: i64,
}

impl Item {
    /// The category that the item's name places it in.
    pub open spec fn spec_category(&self) -> Category {
        category_of(self.name@)
    }

    /// One day's change of this item fits its fields.
    pub open spec fn can_advance(&self) -> bool {
        next_day_fits(self.spec_category(), self.sell_in as int, self.quality as int)
    }

    /// The item as text: its name, sell-in and quality, each pair of them
    /// apart by a comma and a space.
    pub open spec fn rendered(&self) -> Seq<char> {
        self.name@ + ", "@ + decimal_of(self.sell_in as int) + ", "@ + decimal_of(
            self.quality as int,
        )
    }

    /// An item with the given name, sell-in and quality, taken as they are.
    pub fn new(name: &str, sell_in: i64, quality: i64) -> (r: Item)
        ensures
            r.name@ == name@,
            r.sell_in == sell_in,
            r.quality == quality,
    {
        Item { name: name.to_owned(), sell_in, quality }
    }

    /// The item as text, in the form `<name>, <sell_in>, <quality>`.
    pub fn to_string(&self) -> (r: String)
        ensures
            r@ == self.rendered(),
    {
        let mut out = self.name.clone();
        out.append(", ");
        append_decimal(&mut out, self.sell_in);
        out.append(", ");
        append_decimal(&mut out, self.quality);
        out
    }

    /// The category that the item's name places it in.
    pub fn category(&self) -> (r: Category)
        ensures
            r == self.spec_category(),
    {
        classify(self.name.as_str())
    }

    /// Ages the item by one day: the quality changes by the rule of its
    /// category, judged on the sell-in before the day, and then the sell-in
    /// falls by one, unless the item is legendary.
    pub fn advance_one_day(&mut self)
        requires
            old(self).can_advance(),
        ensures
            final(self).name == old(self).name,
            final(self).quality == next_quality(
                old(self).spec_category(),
                old(self).sell_in as int,
                old(self).quality as int,
            ),
            final(self).sell_in == next_sell_in(old(self).spec_category(), old(self).sell_in as int),
    {
        let q = self.quality;
        let s = self.sell_in;
        match self.category() {
            Category::Legendary => {},
            Category::BackstagePass => {
                self.quality = if 6 <= s && s <= 10 {
                    q + 2
                } else if 1 <= s && s <= 5 {
                    q + 3
                } else if s == 0 {
                    0
                } else {
                    q + 1
                };
                self.sell_in = s - 1;
            },
            Category::Aged => {
                let gain: i64 = if s == 0 { 2 } else { 1 };
                self.quality = if q >= MAX_ITEM_QUALITY - gain {
                    MAX_ITEM_QUALITY
                } else {
                    q + gain
                };
                self.sell_in = s - 1;
            },
            Category::Conjured => {
                let loss: i64 = if s == 0 { 4 } else { 2 };
                self.quality = if q <= MIN_ITEM_QUALITY + loss {
                    MIN_ITEM_QUALITY
                } else {
                    q - loss
                };
                self.sell_in = s - 1;
            },
            Category::Regular => {
                let loss: i64 = if s == 0 { 2 } else { 1 };
                self.quality = if q <= MIN_ITEM_QUALITY + loss {
                    MIN_ITEM_QUALITY
                } else {
                    q - loss
                };
                self.sell_in = s - 1;
            },
        }
    }
}

} // verus!
