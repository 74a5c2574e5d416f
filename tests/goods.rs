use honest_merchant::goods::{ItemMasses, ItemRequest, ItemType, Portion, TargetWeight};

fn masses(berries: u32, green_mush: u32, spider_eyes: u32, vibrant_syrup: u32) -> ItemMasses {
    ItemMasses { berries, green_mush, spider_eyes, vibrant_syrup }
}

#[test]
fn unit_costs_follow_the_price_table() {
    assert_eq!(ItemType::Berries.unit_cost(), 1);
    assert_eq!(ItemType::GreenMush.unit_cost(), 2);
    assert_eq!(ItemType::SpiderEyes.unit_cost(), 5);
    assert_eq!(ItemType::VibrantSyrup.unit_cost(), 8);
}

#[test]
fn item_types_by_index() {
    assert_eq!(ItemType::from_index(0), Some(ItemType::Berries));
    assert_eq!(ItemType::from_index(1), Some(ItemType::GreenMush));
    assert_eq!(ItemType::from_index(2), Some(ItemType::SpiderEyes));
    assert_eq!(ItemType::from_index(3), Some(ItemType::VibrantSyrup));
    assert_eq!(ItemType::from_index(4), None);
}

#[test]
fn portions_are_a_gram_and_half_a_gram() {
    assert_eq!(Portion::Whole.mass(), 10);
    assert_eq!(Portion::Half.mass(), 5);
}

#[test]
fn get_and_set_one_item() {
    let mut m = ItemMasses::empty();
    assert_eq!(m.total(), 0);
    m.set(ItemType::GreenMush, 25);
    assert_eq!(m.get(ItemType::GreenMush), 25);
    assert_eq!(m.get(ItemType::Berries), 0);
    assert_eq!(m, masses(0, 25, 0, 0));
}

#[test]
fn total_cost_and_price() {
    // 10 g of berries and 5 g of spider eyes: 10 * 1 + 5 * 5 = 35 gold.
    let m = masses(100, 0, 50, 0);
    assert_eq!(m.total(), 150);
    assert_eq!(m.cost(), 350);
    assert_eq!(m.customer_cost(), 700);
    // 2.5 g of vibrant syrup and 1 g of green mush: 20 + 2 = 22 gold.
    let n = masses(0, 10, 0, 25);
    assert_eq!(n.cost(), 220);
    assert_eq!(n.customer_cost(), 440);
}

#[test]
fn ratios_compare_shares_not_amounts() {
    let a = masses(100, 200, 0, 0);
    assert!(a.same_ratios(&masses(50, 100, 0, 0)));
    assert!(masses(50, 100, 0, 0).same_ratios(&a));
    assert!(!a.same_ratios(&masses(100, 100, 0, 0)));
    assert!(!a.same_ratios(&masses(100, 200, 5, 0)));
    assert!(masses(0, 0, 30, 0).same_ratios(&masses(0, 0, 70, 0)));
    assert!(!masses(0, 0, 30, 0).same_ratios(&masses(30, 0, 0, 0)));
}

#[test]
fn ratios_with_empty_sides() {
    assert!(ItemMasses::empty().same_ratios(&ItemMasses::empty()));
    assert!(!ItemMasses::empty().same_ratios(&masses(10, 0, 0, 0)));
    assert!(!masses(10, 0, 0, 0).same_ratios(&ItemMasses::empty()));
}

#[test]
fn relative_difference_at_the_threshold_boundary() {
    // 3 g against 10 g is exactly 70 % off: not above a 0.7 threshold.
    let target = masses(0, 0, 100, 0);
    assert!(!target.diff_exceeds(&masses(0, 0, 30, 0), 700));
    // 2.5 g against 10 g is 75 % off: above it.
    assert!(target.diff_exceeds(&masses(0, 0, 25, 0), 700));
    // Too much counts as well as too little.
    assert!(!target.diff_exceeds(&masses(0, 0, 170, 0), 700));
    assert!(target.diff_exceeds(&masses(0, 0, 175, 0), 700));
    // Equal totals are never off.
    assert!(!target.diff_exceeds(&masses(100, 0, 0, 0), 0));
}

#[test]
fn largest_piles_do_not_overflow() {
    let m = masses(u32::MAX, u32::MAX, u32::MAX, u32::MAX);
    assert_eq!(m.total(), 4 * u32::MAX as u64);
    assert_eq!(m.cost(), 16 * u32::MAX as u64);
    assert!(m.same_ratios(&masses(1, 1, 1, 1)));
    assert!(!m.diff_exceeds(&masses(u32::MAX, u32::MAX, u32::MAX, u32::MAX - 1), 1));
}

#[test]
fn target_from_request_and_profit() {
    let req = ItemRequest { masses: masses(50, 0, 0, 0) };
    let target = TargetWeight::from_request(&req);
    assert_eq!(target.masses, req.masses);
    assert_eq!(TargetWeight::none().masses.total(), 0);
    // Sold for 10 gold, goods worth 3 gold of berries and 1 g of syrup.
    assert_eq!(target.profit_on(&masses(30, 0, 0, 10)), 100 - 30 - 80);
}
