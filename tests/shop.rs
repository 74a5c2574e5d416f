use honest_merchant::attention::{AttentionState, AttentionType};
use honest_merchant::customer::{Archetype, CharacterTraits, Characters, CustomerState, Rgb};
use honest_merchant::goods::{ItemMasses, ItemRequest, ItemType, Portion};
use honest_merchant::scales::{Placement, WeightId};
use honest_merchant::shop::{
    Roll, Shop, ARRIVAL_MAX_MS, ARRIVAL_MIN_MS, DAY_LEN_MS, FIRST_ARRIVAL_MS, THINK_MAX_MS,
    THINK_MIN_MS,
};

fn masses(berries: u32, green_mush: u32, spider_eyes: u32, vibrant_syrup: u32) -> ItemMasses {
    ItemMasses { berries, green_mush, spider_eyes, vibrant_syrup }
}

fn traits(name: &str, request: Vec<ItemRequest>, get_distracted: (u32, u32), threshold: u32, rep_hit: u8) -> CharacterTraits {
    CharacterTraits {
        name: name.to_string(),
        color: Rgb { red: 200, green: 100, blue: 0 },
        greeting: vec!["Good day".to_string(), "I need something".to_string()],
        thinking: "Let me see".to_string(),
        accept: "Fine".to_string(),
        reject: "That is not right".to_string(),
        accuse: "Cheat!".to_string(),
        request,
        attention_type: AttentionType { get_distracted, get_focused: (1, 2), threshold },
        rep_hit,
    }
}

fn characters() -> Characters {
    let spider = ItemRequest { masses: masses(0, 0, 100, 0) };
    let mix = ItemRequest { masses: masses(20, 40, 0, 0) };
    Characters {
        dumb: traits("dumb", vec![spider, mix], (1, 2), 500, 5),
        attentive: traits("attentive", vec![mix], (1, 20), 100, 10),
        normal: traits("normal", vec![spider], (1, 5), 200, 10),
        cop: traits("cop", vec![spider], (0, 1), 0, 20),
    }
}

fn roll(customer: usize, request: usize) -> Roll {
    Roll { customer, request, flip: false, think_ms: 1500, wait_ms: 4000 }
}

/// A shop whose customer has just asked for request `request` of kind
/// `available[customer]` (reputation 50: normal or dumb).
fn shop_at_measuring(customer: usize, request: usize) -> Shop {
    let mut shop = Shop::new(characters());
    shop.tick(FIRST_ARRIVAL_MS, roll(customer, request));
    shop.arrived();
    shop.advance(roll(customer, request));
    shop.advance(roll(customer, request));
    assert_eq!(shop.state, CustomerState::Measuring);
    shop
}

#[test]
fn a_new_shop_waits_for_its_first_customer() {
    let mut shop = Shop::new(characters());
    assert_eq!(shop.state, CustomerState::End);
    assert_eq!(shop.customer, None);
    assert_eq!(shop.arrival_ms, FIRST_ARRIVAL_MS);
    assert_eq!(shop.day_ms, DAY_LEN_MS);
    shop.tick(4000, roll(0, 0));
    assert_eq!(shop.customer, None);
    assert_eq!(shop.arrival_ms, 1000);
    shop.tick(1000, roll(1, 0));
    assert_eq!(shop.customer, Some(Archetype::Dumb));
    assert_eq!(shop.state, CustomerState::Approach);
    assert_eq!(shop.attention.state, AttentionState::Attentive);
}

#[test]
fn a_full_sale() {
    let mut shop = Shop::new(characters());
    shop.tick(FIRST_ARRIVAL_MS, roll(1, 1));
    assert_eq!(shop.customer, Some(Archetype::Dumb));
    shop.advance(roll(1, 1));
    assert_eq!(shop.state, CustomerState::Approach);
    shop.arrived();
    assert_eq!(shop.state, CustomerState::Greeting);
    shop.advance(roll(1, 1));
    assert_eq!(shop.state, CustomerState::Request);
    assert_eq!(shop.target.masses, masses(20, 40, 0, 0));
    assert_eq!(shop.scale.weights.right, 60);
    shop.advance(roll(1, 1));
    assert_eq!(shop.state, CustomerState::Measuring);
    for _ in 0..2 {
        shop.add_item(ItemType::Berries, Portion::Whole);
    }
    for _ in 0..4 {
        shop.add_item(ItemType::GreenMush, Portion::Whole);
    }
    shop.add_weight(WeightId { slot: 1, counterfeit: false });
    shop.add_weight(WeightId { slot: 5, counterfeit: false });
    assert!(shop.scale.weights.is_even());
    shop.submit(roll(1, 1));
    assert_eq!(shop.state, CustomerState::Review);
    assert_eq!(shop.review_ms, 1500);
    shop.tick(1000, roll(1, 1));
    assert_eq!(shop.state, CustomerState::Review);
    shop.tick(500, roll(1, 1));
    assert_eq!(shop.state, CustomerState::Payment);
    // 2 g berries + 4 g green mush cost 2 + 8 = 10 gold; the customer pays 20.
    assert_eq!(shop.ledger.daily_gold.0, 200);
    assert_eq!(shop.ledger.daily_expenses.0, 100);
    assert_eq!(shop.ledger.reputation.0, 55);
    shop.advance(roll(1, 1));
    assert_eq!(shop.state, CustomerState::End);
    assert_eq!(shop.customer, None);
    assert_eq!(shop.arrival_ms, 4000);
    assert_eq!(shop.target.masses.total(), 0);
    assert_eq!(shop.scale.weights.left, 0);
    assert_eq!(shop.scale.weights.right, 0);
    assert_eq!(shop.scale.contents.masses.total(), 0);
}

#[test]
fn a_genuine_weight_without_goods_balances_but_angers() {
    // Normal customer, 10 g of spider eyes.
    let mut shop = shop_at_measuring(0, 0);
    assert_eq!(shop.customer, Some(Archetype::Normal));
    assert_eq!(shop.target.masses, masses(0, 0, 100, 0));
    shop.add_weight(WeightId { slot: 0, counterfeit: false });
    assert_eq!(shop.scale.weights.left, 100);
    assert_eq!(shop.scale.weights.right, 100);
    assert!(shop.scale.weights.is_even());
    // No goods on the scale: the bell does nothing.
    shop.submit(roll(0, 0));
    assert_eq!(shop.state, CustomerState::Measuring);
    shop.advance(roll(0, 0));
    assert_eq!(shop.state, CustomerState::Measuring);
}

#[test]
fn a_short_delivery_without_counterfeits_angers() {
    let mut shop = shop_at_measuring(0, 0);
    for _ in 0..9 {
        shop.add_item(ItemType::SpiderEyes, Portion::Whole);
    }
    shop.add_weight(WeightId { slot: 0, counterfeit: false });
    shop.submit(roll(0, 0));
    shop.tick(1500, roll(0, 0));
    assert_eq!(shop.state, CustomerState::Angry);
    assert_eq!(shop.ledger.reputation.0, 40);
    assert_eq!(shop.ledger.daily_gold.0, 0);
}

#[test]
fn a_covered_short_delivery_is_rejected_then_retried() {
    // Dumb customer (threshold one half) asks for 10 g of spider eyes.
    let mut shop = shop_at_measuring(1, 0);
    shop.attention.state = AttentionState::Distracted;
    shop.add_weight(WeightId { slot: 0, counterfeit: true });
    assert_eq!(shop.state, CustomerState::Measuring);
    assert!(shop.scale.is_sus());
    for _ in 0..7 {
        shop.add_item(ItemType::SpiderEyes, Portion::Whole);
    }
    shop.submit(roll(1, 0));
    shop.tick(2000, roll(1, 0));
    // 7 g against 10 g is within the threshold, but the pans (5 g vs 10 g) are uneven.
    assert_eq!(shop.state, CustomerState::Reject);
    shop.advance(roll(1, 0));
    assert_eq!(shop.state, CustomerState::Measuring);
    assert_eq!(shop.target.masses, masses(0, 0, 100, 0));
}

#[test]
fn a_counterfeit_under_watchful_eyes_angers_at_once() {
    let mut shop = shop_at_measuring(0, 0);
    assert_eq!(shop.attention.state, AttentionState::Attentive);
    shop.add_weight(WeightId { slot: 2, counterfeit: true });
    assert_eq!(shop.state, CustomerState::Angry);
    assert_eq!(shop.ledger.reputation.0, 40);
    assert_eq!(shop.scale.slots[2], Placement::Counterfeit);
    // Another one does not anger them twice.
    shop.add_weight(WeightId { slot: 3, counterfeit: true });
    assert_eq!(shop.ledger.reputation.0, 40);
}

#[test]
fn a_distracted_customer_misses_the_counterfeit() {
    let mut shop = shop_at_measuring(0, 0);
    shop.attention.state = AttentionState::Distracted;
    shop.add_weight(WeightId { slot: 2, counterfeit: true });
    assert_eq!(shop.state, CustomerState::Measuring);
    assert_eq!(shop.ledger.reputation.0, 50);
}

#[test]
fn scale_input_is_ignored_while_the_customer_thinks() {
    let mut shop = shop_at_measuring(0, 0);
    shop.add_item(ItemType::SpiderEyes, Portion::Whole);
    shop.submit(roll(0, 0));
    assert_eq!(shop.state, CustomerState::Review);
    shop.add_item(ItemType::SpiderEyes, Portion::Whole);
    shop.remove_item(ItemType::SpiderEyes, Portion::Whole);
    shop.add_weight(WeightId { slot: 0, counterfeit: true });
    assert_eq!(shop.scale.contents.masses.get(ItemType::SpiderEyes), 10);
    assert_eq!(shop.scale.weights.left, 0);
    assert_eq!(shop.state, CustomerState::Review);
}

#[test]
fn attention_moves_only_while_a_customer_is_there() {
    let mut shop = Shop::new(characters());
    let mut r = roll(0, 0);
    r.flip = true;
    shop.tick(100, r);
    assert!(!shop.attention.will_change);
    shop.tick(FIRST_ARRIVAL_MS, roll(0, 0));
    shop.tick(16, r);
    assert!(shop.attention.will_change);
    shop.tick(500, roll(0, 0));
    assert_eq!(shop.attention.state, AttentionState::Distracted);
}

#[test]
fn nobody_arrives_after_the_day_is_over() {
    let mut shop = Shop::new(characters());
    shop.tick(DAY_LEN_MS, roll(0, 0));
    assert!(shop.day_over());
    assert_eq!(shop.customer, None);
    shop.next_day(3000);
    assert_eq!(shop.day, 1);
    assert_eq!(shop.day_ms, DAY_LEN_MS);
    assert_eq!(shop.arrival_ms, 3000);
    assert!(!shop.day_over());
}

#[test]
fn the_next_day_banks_the_gold() {
    let mut shop = Shop::new(characters());
    shop.ledger.pay(300, 120, 0);
    shop.tick(DAY_LEN_MS, roll(0, 0));
    shop.next_day(5000);
    assert_eq!(shop.ledger.total_gold.0, 300);
    assert_eq!(shop.ledger.total_expenses.0, 120);
    assert_eq!(shop.ledger.daily_gold.0, 0);
    assert_eq!(shop.ledger.daily_expenses.0, 0);
}

#[test]
fn low_reputation_brings_the_cop() {
    let mut shop = Shop::new(characters());
    shop.ledger.anger(45);
    shop.tick(FIRST_ARRIVAL_MS, roll(0, 0));
    assert_eq!(shop.customer, Some(Archetype::Cop));
}

#[test]
fn draws_fit_the_shop() {
    let mut shop = Shop::new(characters());
    for _ in 0..50 {
        let r = Roll::draw(&shop);
        assert!(r.customer < 2);
        assert!(THINK_MIN_MS <= r.think_ms && r.think_ms <= THINK_MAX_MS);
        assert!(ARRIVAL_MIN_MS <= r.wait_ms && r.wait_ms <= ARRIVAL_MAX_MS);
    }
    shop.tick(FIRST_ARRIVAL_MS, roll(1, 0));
    let mut picks = [false; 2];
    let mut waits = std::collections::HashSet::new();
    for _ in 0..200 {
        let r = Roll::draw(&shop);
        assert!(r.request < 2);
        picks[r.request] = true;
        waits.insert(r.wait_ms);
    }
    assert!(picks[0] && picks[1]);
    assert!(waits.len() > 1);
}
