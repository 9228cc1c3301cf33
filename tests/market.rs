use bybit_quoter::book::{pick_level, price_units, BookMessage, Level, TopOfBook};
use bybit_quoter::quoter::{target_quote, tick_price, tick_text, QuoteParams, QuoterState, RestCall};

const TOPIC: &str = "orderbook.1.BTCUSDT";

fn levels(items: &[(&str, &str)]) -> Vec<Level> {
    items.iter().map(|(p, s)| Level { price: p.to_string(), size: s.to_string() }).collect()
}

fn message(topic: &str, bids: &[(&str, &str)], asks: &[(&str, &str)]) -> BookMessage {
    BookMessage { topic: Some(topic.to_string()), bids: levels(bids), asks: levels(asks) }
}

const UNIT: u64 = 100_000_000;
const QUOTE_UNIT: u128 = 10_000_000_000_000;

fn params(edge_bps: u64) -> QuoteParams {
    QuoteParams { edge_bps, threshold_bps: 0 }
}

#[test]
fn first_nonzero_level_is_chosen() {
    let mut tob = TopOfBook::new();
    assert!(tob.apply_message(&message(TOPIC, &[("30000.1", "0"), ("30000.0", "1.2")], &[]), TOPIC));
    assert_eq!(tob.best_bid, 30_000 * UNIT);
    let mut tob = TopOfBook::new();
    assert!(tob.apply_message(&message(TOPIC, &[("30000.1", "1.0"), ("30000.0", "1.2")], &[]), TOPIC));
    assert_eq!(tob.best_bid, 300_001 * UNIT / 10);
}

#[test]
fn level_one_message_updates_both_sides() {
    let mut tob = TopOfBook::new();
    let msg = message(TOPIC, &[("29999.5", "0"), ("29999.4", "2.0")], &[("30000.5", "1.0")]);
    assert!(tob.apply_message(&msg, TOPIC));
    assert_eq!(tob, TopOfBook { best_bid: 299_994 * UNIT / 10, best_ask: 300_005 * UNIT / 10 });
}

#[test]
fn other_topic_leaves_book_unchanged() {
    let mut tob = TopOfBook { best_bid: 10 * UNIT, best_ask: 11 * UNIT };
    let msg = message("trade.BTCUSDT", &[("29999.5", "1")], &[("30000.5", "1.0")]);
    assert!(!tob.apply_message(&msg, TOPIC));
    assert_eq!(tob, TopOfBook { best_bid: 10 * UNIT, best_ask: 11 * UNIT });
    let untitled = BookMessage { topic: None, bids: levels(&[("1", "1")]), asks: Vec::new() };
    assert!(!tob.apply_message(&untitled, TOPIC));
    assert_eq!(tob.best_bid, 10 * UNIT);
}

#[test]
fn side_without_qualifying_entry_is_kept() {
    let mut tob = TopOfBook { best_bid: 10 * UNIT, best_ask: 11 * UNIT };
    assert!(tob.apply_message(&message(TOPIC, &[("9", "0")], &[]), TOPIC));
    assert_eq!(tob, TopOfBook { best_bid: 10 * UNIT, best_ask: 11 * UNIT });
    assert!(tob.apply_message(&message(TOPIC, &[], &[("12", "3")]), TOPIC));
    assert_eq!(tob, TopOfBook { best_bid: 10 * UNIT, best_ask: 12 * UNIT });
}

#[test]
fn unparsable_price_drops_message() {
    let mut tob = TopOfBook { best_bid: 10 * UNIT, best_ask: 11 * UNIT };
    assert!(!tob.apply_message(&message(TOPIC, &[("abc", "1")], &[("12", "1")]), TOPIC));
    assert!(!tob.apply_message(&message(TOPIC, &[("9.123456789", "1")], &[("12", "1")]), TOPIC));
    assert!(!tob.apply_message(&message(TOPIC, &[("-9", "1")], &[("12", "1")]), TOPIC));
    assert_eq!(tob, TopOfBook { best_bid: 10 * UNIT, best_ask: 11 * UNIT });
}

#[test]
fn pick_level_rules() {
    assert_eq!(pick_level(&levels(&[])), None);
    assert_eq!(pick_level(&levels(&[("1", "0")])), None);
    assert_eq!(pick_level(&levels(&[("1", "0"), ("2", "0")])), Some(1));
    assert_eq!(pick_level(&levels(&[("1", "0.0"), ("2", "1")])), Some(0));
}

#[test]
fn price_units_scaling() {
    assert_eq!(price_units(Some((300001, 1))), Some(3_000_010_000_000));
    assert_eq!(price_units(Some((5, 8))), Some(5));
    assert_eq!(price_units(Some((5, 9))), None);
    assert_eq!(price_units(Some((-5, 0))), None);
    assert_eq!(price_units(Some((i128::MAX, 0))), None);
    assert_eq!(price_units(Some((184_467_440_737, 0))), Some(18_446_744_073_700_000_000));
    assert_eq!(price_units(Some((184_467_440_738, 0))), None);
    assert_eq!(price_units(None), None);
}

#[test]
fn quote_at_round_mid() {
    let tob = TopOfBook { best_bid: 299_995 * UNIT / 10, best_ask: 300_005 * UNIT / 10 };
    assert_eq!(target_quote(tob, 10), (29_970 * QUOTE_UNIT, 30_030 * QUOTE_UNIT));
    let mut q = QuoterState::new();
    let calls = q.step(tob, params(10));
    assert_eq!(
        calls,
        vec![
            RestCall::CancelAll,
            RestCall::Place { price: 299_700, is_buy: true },
            RestCall::Place { price: 300_300, is_buy: false },
        ]
    );
    assert_eq!(tick_text(299_700), "29970.0");
    assert_eq!(tick_text(300_300), "30030.0");
    assert_eq!(q, QuoterState { my_bid: 29_970 * QUOTE_UNIT, my_ask: 30_030 * QUOTE_UNIT });
}

#[test]
fn quote_rounds_to_tick() {
    let tob = TopOfBook { best_bid: 30_000 * UNIT, best_ask: 300_001 * UNIT / 10 };
    let (bid, ask) = target_quote(tob, 10);
    assert_eq!(bid, 2_997_004_995 * QUOTE_UNIT / 100_000);
    assert_eq!(ask, 3_003_005_005 * QUOTE_UNIT / 100_000);
    let mut q = QuoterState::new();
    let calls = q.step(tob, params(10));
    assert_eq!(calls[1], RestCall::Place { price: 299_700, is_buy: true });
    assert_eq!(calls[2], RestCall::Place { price: 300_301, is_buy: false });
    assert_eq!(tick_text(299_700), "29970.0");
    assert_eq!(tick_text(300_301), "30030.1");
}

#[test]
fn equal_mid_issues_no_call() {
    let tob = TopOfBook { best_bid: 299_995 * UNIT / 10, best_ask: 300_005 * UNIT / 10 };
    let mut q = QuoterState::new();
    assert_eq!(q.step(tob, params(10)).len(), 3);
    let before = q;
    assert!(q.step(tob, params(10)).is_empty());
    assert_eq!(q, before);
    let same_mid = TopOfBook { best_bid: 29_999 * UNIT, best_ask: 30_001 * UNIT };
    assert!(q.step(same_mid, params(10)).is_empty());
}

#[test]
fn moved_mid_requotes() {
    let mut q = QuoterState::new();
    q.step(TopOfBook { best_bid: 29_999 * UNIT, best_ask: 30_001 * UNIT }, params(10));
    let calls = q.step(TopOfBook { best_bid: 30_000 * UNIT, best_ask: 30_002 * UNIT }, params(10));
    assert_eq!(calls.len(), 3);
    assert_eq!(calls[0], RestCall::CancelAll);
    assert_eq!(q.my_bid, 30_001 * 9_990 * QUOTE_UNIT / 10_000);
}

#[test]
fn threshold_suppresses_small_moves() {
    let mut q = QuoterState::new();
    let p = QuoteParams { edge_bps: 10, threshold_bps: 1 };
    q.step(TopOfBook { best_bid: 29_999 * UNIT, best_ask: 30_001 * UNIT }, p);
    // 1 unit on 30000 is about 0.33 bp.
    assert!(q.step(TopOfBook { best_bid: 30_000 * UNIT, best_ask: 30_002 * UNIT }, p).is_empty());
    // 6 units on 30000 is 2 bp.
    assert_eq!(q.step(TopOfBook { best_bid: 30_005 * UNIT, best_ask: 30_007 * UNIT }, p).len(), 3);
}

#[test]
fn empty_or_crossed_book_is_skipped() {
    let mut q = QuoterState::new();
    assert!(q.step(TopOfBook::new(), params(10)).is_empty());
    assert!(q.step(TopOfBook { best_bid: 30_001 * UNIT, best_ask: 30_000 * UNIT }, params(10)).is_empty());
    assert!(q.step(TopOfBook { best_bid: 30_000 * UNIT, best_ask: 30_000 * UNIT }, params(10)).is_empty());
    assert_eq!(q, QuoterState::new());
}

#[test]
fn tick_rounding_is_half_even() {
    assert_eq!(tick_price(25 * QUOTE_UNIT / 100), 2);
    assert_eq!(tick_price(35 * QUOTE_UNIT / 100), 4);
    assert_eq!(tick_price(26 * QUOTE_UNIT / 100), 3);
    assert_eq!(tick_price(0), 0);
    assert_eq!(tick_text(5), "0.5");
    assert_eq!(tick_text(0), "0.0");
}

#[test]
fn one_sided_book_is_quoted() {
    let mut q = QuoterState::new();
    let calls = q.step(TopOfBook { best_bid: 60_000 * UNIT, best_ask: 0 }, params(10));
    assert_eq!(
        calls,
        vec![
            RestCall::CancelAll,
            RestCall::Place { price: 299_700, is_buy: true },
            RestCall::Place { price: 300_300, is_buy: false },
        ]
    );
    assert_eq!(q, QuoterState { my_bid: 29_970 * QUOTE_UNIT, my_ask: 30_030 * QUOTE_UNIT });
    let mut other = QuoterState::new();
    assert_eq!(other.step(TopOfBook { best_bid: 0, best_ask: 60_000 * UNIT }, params(10)).len(), 3);
}
