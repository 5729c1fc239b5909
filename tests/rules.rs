use gilded_rose::inventory::GildedRose;
use gilded_rose::item::{classify, Category, Item, MAX_ITEM_QUALITY, MIN_ITEM_QUALITY};
use gilded_rose::text::{append_decimal, same_text, starts_with};

fn state(rose: &GildedRose, i: usize) -> (i64, i64) {
    (rose.items[i].sell_in, rose.items[i].quality)
}

#[test]
fn regular_scenario_three_days() {
    let mut rose = GildedRose::new(vec![Item::new("foo", 1, 3)]);
    rose.update_quality();
    assert_eq!(state(&rose, 0), (0, 2));
    rose.update_quality();
    assert_eq!(state(&rose, 0), (-1, 0));
    rose.update_quality();
    assert_eq!(state(&rose, 0), (-2, 0));
}

#[test]
fn aged_scenario_capped() {
    let mut rose = GildedRose::new(vec![Item::new("Aged Brie", 1, 47)]);
    rose.update_quality();
    assert_eq!(state(&rose, 0), (0, 48));
    rose.update_quality();
    assert_eq!(state(&rose, 0), (-1, 50));
    rose.update_quality();
    assert_eq!(state(&rose, 0), (-2, 50));
}

#[test]
fn legendary_scenario_unchanged() {
    let mut rose = GildedRose::new(vec![Item::new("Sulfuras, Hand of Ragnaros", 5, 80)]);
    for _ in 0..10 {
        rose.update_quality();
        assert_eq!(state(&rose, 0), (5, 80));
    }
}

#[test]
fn backstage_scenario_four_tiers() {
    let name = "Backstage passes to a TAFKAL80ETC concert";
    let mut rose = GildedRose::new(vec![
        Item::new(name, 10, 10),
        Item::new(name, 5, 10),
        Item::new(name, 0, 10),
        Item::new(name, 20, 10),
    ]);
    rose.update_quality();
    assert_eq!(state(&rose, 0), (9, 12));
    assert_eq!(state(&rose, 1), (4, 13));
    assert_eq!(state(&rose, 2), (-1, 0));
    assert_eq!(state(&rose, 3), (19, 11));
}

#[test]
fn backstage_tier_edges() {
    let name = "Backstage passes to a concert";
    let mut rose = GildedRose::new(vec![
        Item::new(name, 11, 10),
        Item::new(name, 6, 10),
        Item::new(name, 1, 10),
        Item::new(name, -1, 10),
    ]);
    rose.update_quality();
    assert_eq!(state(&rose, 0), (10, 11));
    assert_eq!(state(&rose, 1), (5, 12));
    assert_eq!(state(&rose, 2), (0, 13));
    assert_eq!(state(&rose, 3), (-2, 11));
}

#[test]
fn backstage_quality_is_not_capped() {
    let mut rose = GildedRose::new(vec![Item::new("Backstage passes to a show", 10, 50)]);
    rose.update_quality();
    assert_eq!(state(&rose, 0), (9, 52));
}

#[test]
fn conjured_scenario_three_days() {
    let mut rose = GildedRose::new(vec![Item::new("Conjured Mana Cake", 1, 7)]);
    rose.update_quality();
    assert_eq!(state(&rose, 0), (0, 5));
    rose.update_quality();
    assert_eq!(state(&rose, 0), (-1, 1));
    rose.update_quality();
    assert_eq!(state(&rose, 0), (-2, 0));
}

#[test]
fn bounds_hold_over_many_days() {
    let mut rose = GildedRose::new(vec![
        Item::new("foo", 3, 50),
        Item::new("Aged Brie", 3, 0),
        Item::new("Conjured Mana Cake", 3, 50),
        Item::new("+5 Dexterity Vest", 10, 20),
    ]);
    for day in 1..=60 {
        rose.update_quality();
        for i in 0..4 {
            let item = &rose.items[i];
            assert!(MIN_ITEM_QUALITY <= item.quality && item.quality <= MAX_ITEM_QUALITY);
            assert_eq!(item.sell_in, [3, 3, 3, 10][i] - day);
        }
    }
}

#[test]
fn out_of_range_quality_is_pulled_toward_bounds() {
    let mut rose = GildedRose::new(vec![
        Item::new("foo", 5, 80),
        Item::new("Aged Brie", 5, 80),
        Item::new("foo", 5, -4),
    ]);
    rose.update_quality();
    assert_eq!(state(&rose, 0), (4, 79));
    assert_eq!(state(&rose, 1), (4, 50));
    assert_eq!(state(&rose, 2), (4, 0));
}

#[test]
fn wide_quality_does_not_wrap() {
    let mut rose = GildedRose::new(vec![
        Item::new("Aged Brie", 0, i32::MAX as i64),
        Item::new("foo", 0, i64::MIN),
        Item::new("Conjured Mana Cake", 0, i64::MIN),
        Item::new("Backstage passes to a show", 3, i32::MAX as i64),
        Item::new("Aged Brie", 0, i64::MAX),
    ]);
    rose.update_quality();
    assert_eq!(state(&rose, 0), (-1, 50));
    assert_eq!(state(&rose, 1), (-1, 0));
    assert_eq!(state(&rose, 2), (-1, 0));
    assert_eq!(state(&rose, 3), (2, i32::MAX as i64 + 3));
    assert_eq!(state(&rose, 4), (-1, 50));
}

#[test]
fn names_and_order_are_kept() {
    let mut rose = GildedRose::new(vec![
        Item::new("b", 1, 1),
        Item::new("a", 1, 1),
        Item::new("b", 1, 1),
    ]);
    rose.update_quality();
    assert_eq!(rose.items.len(), 3);
    assert_eq!(rose.items[0].name, "b");
    assert_eq!(rose.items[1].name, "a");
    assert_eq!(rose.items[2].name, "b");
}

#[test]
fn empty_inventory() {
    let mut rose = GildedRose::new(Vec::new());
    rose.update_quality();
    assert!(rose.items.is_empty());
}

#[test]
fn classification_order() {
    assert_eq!(classify("Sulfuras, Hand of Ragnaros"), Category::Legendary);
    assert_eq!(classify("Sulfuras"), Category::Regular);
    assert_eq!(classify("Backstage passes to a TAFKAL80ETC concert"), Category::BackstagePass);
    assert_eq!(classify("Backstage passes to"), Category::BackstagePass);
    assert_eq!(classify("Backstage pass"), Category::Regular);
    assert_eq!(classify("Aged Brie"), Category::Aged);
    assert_eq!(classify("Aged Brie 2"), Category::Regular);
    assert_eq!(classify("Conjured Mana Cake"), Category::Conjured);
    assert_eq!(classify("Conjured"), Category::Conjured);
    assert_eq!(classify("conjured"), Category::Regular);
    assert_eq!(classify(""), Category::Regular);
    assert_eq!(Item::new("Aged Brie", 0, 0).category(), Category::Aged);
}

#[test]
fn text_comparisons() {
    assert!(starts_with("Conjured Mana Cake", "Conjured"));
    assert!(starts_with("abc", ""));
    assert!(!starts_with("Con", "Conjured"));
    assert!(same_text("Aged Brie", "Aged Brie"));
    assert!(!same_text("Aged Brie", "Aged Bri"));
    assert!(!same_text("Aged Brie", "Aged Bri!"));
}

#[test]
fn decimal_rendering() {
    let mut out = String::from("x");
    append_decimal(&mut out, 0);
    append_decimal(&mut out, -7);
    append_decimal(&mut out, 1203);
    assert_eq!(out, "x0-71203");
    let mut wide = String::new();
    append_decimal(&mut wide, i64::MIN);
    assert_eq!(wide, "-9223372036854775808");
    let mut top = String::new();
    append_decimal(&mut top, i64::MAX);
    assert_eq!(top, "9223372036854775807");
}

#[test]
fn item_text_form() {
    assert_eq!(Item::new("foo", 1, 3).to_string(), "foo, 1, 3");
    assert_eq!(Item::new("Aged Brie", -10, 50).to_string(), "Aged Brie, -10, 50");
    let mut rose = GildedRose::new(vec![Item::new("Conjured Mana Cake", 3, 6)]);
    rose.update_quality();
    assert_eq!(rose.items[0].to_string(), "Conjured Mana Cake, 2, 4");
}
