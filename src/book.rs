use crate::decimal::{decimal_parse, parse_decimal, pow10};
use vstd::prelude::*;
use vstd::string::*;

verus! {

/// Prices on the book are held as integer counts of `10^-PRICE_SCALE`.
pub const PRICE_SCALE: u32 = 8;

/// Best bid and best ask, each a count of `10^-8` price units; zero means "not seen yet".
#[derive(Clone, Copy, Debug, PartialEq, Eq, Structural)]
pub struct TopOfBook {
    pub best_bid: u64,
    pub best_ask: u64,
}

/// One `[price, size]` entry of a book side, as the feed writes it.
#[derive(Clone, Debug)]
pub struct Level {
    pub price: String,
    pub size: String,
}

/// A feed message: its topic, if it has one, and the bid (`b`) and ask (`a`) entries of its data.
#[derive(Clone, Debug)]
pub struct BookMessage {
    pub topic: Option<String>,
    pub bids: Vec<Level>,
    pub asks: Vec<Level>,
}

/// The entry a side's best price is taken from: the first one unless its size is `"0"`, then
/// the second one.
pub open spec fn chosen_level(levels: Seq<Level>) -> Option<int> {
    if levels.len() > 0 && levels[0].size@ != seq!['0'] {
        Some(0)
    } else if levels.len() > 1 {
        Some(1)
    } else {
        None
    }
}

/// The price units of a parsed decimal: non-negative, at most `PRICE_SCALE` fractional digits,
/// and within `u64`.
pub open spec fn units_of(parsed: Option<(i128, u32)>) -> Option<u64> {
    match parsed {
        Some((m, k)) => if 0 <= m && k <= PRICE_SCALE && m * pow10((PRICE_SCALE - k) as nat)
            <= u64::MAX {
            Some((m * pow10((PRICE_SCALE - k) as nat)) as u64)
        } else {
            None
        },
        None => None,
    }
}

/// What a side of a message says: `None` when no entry qualifies (the side is left as it is),
/// `Some(None)` when the chosen price is not a usable decimal, else the new price.
pub open spec fn side_units(levels: Seq<Level>) -> Option<Option<u64>> {
    match chosen_level(levels) {
        Some(i) => Some(units_of(decimal_parse(levels[i].price@))),
        None => None,
    }
}

pub open spec fn side_is_usable(side: Option<Option<u64>>) -> bool {
    side != Some(None::<u64>)
}

pub open spec fn updated_price(old: u64, side: Option<Option<u64>>) -> u64 {
    match side {
        Some(Some(u)) => u,
        _ => old,
    }
}

/// Whether a message is taken: its topic is `topic` and neither side has an unusable price.
pub open spec fn message_applies(msg: BookMessage, topic: Seq<char>) -> bool {
    &&& msg.topic.is_some()
    &&& msg.topic.unwrap()@ == topic
    &&& side_is_usable(side_units(msg.bids@))
    &&& side_is_usable(side_units(msg.asks@))
}

pub proof fn lemma_pow10_positive(n: nat)
    ensures
        pow10(n) >= 1,
    decreases n,
{
    if n > 0 {
        lemma_pow10_positive((n - 1) as nat);
    }
}

/// Converts a parsed decimal into price units, as `units_of` says.
pub fn price_units(parsed: Option<(i128, u32)>) -> (r: Option<u64>)
    ensures
        r == units_of(parsed),
{
    match parsed {
        None => None,
        Some((m, k)) => {
            if m < 0 || k > PRICE_SCALE {
                return None;
            }
            let mut v: u128 = m as u128;
            let mut j: u32 = k;
            proof {
                lemma_pow10_positive((PRICE_SCALE - k) as nat);
            }
            while j < PRICE_SCALE
                invariant
                    parsed == Some((m, k)),
                    0 <= m,
                    k <= j <= PRICE_SCALE,
                    v <= i128::MAX as u128,
                    v * pow10((PRICE_SCALE - j) as nat) == m * pow10((PRICE_SCALE - k) as nat),
                decreases PRICE_SCALE - j,
            {
                proof {
                    lemma_pow10_positive((PRICE_SCALE - j) as nat);
                    lemma_pow10_positive((PRICE_SCALE - j - 1) as nat);
                }
                if v > u64::MAX as u128 {
                    proof {
                        let p = pow10((PRICE_SCALE - j) as nat);
                        assert(v * p >= v) by (nonlinear_arith)
                            requires
                                p >= 1,
                                v >= 0,
                        ;
                    }
                    assert(m * pow10((PRICE_SCALE - k) as nat) > u64::MAX);
                    assert(units_of(parsed) is None);
                    return None;
                }
                proof {
                    let p = pow10((PRICE_SCALE - j - 1) as nat);
                    assert(pow10((PRICE_SCALE - j) as nat) == 10 * p);
                    assert(v * (10 * p) == (v * 10) * p) by (nonlinear_arith);
                }
                v = v * 10;
                j = j + 1;
            }
            assert(j == PRICE_SCALE);
            assert(pow10((PRICE_SCALE - j) as nat) == 1);
            let ghost p = pow10((PRICE_SCALE - j) as nat);
            assert(v * p == v) by (nonlinear_arith)
                requires
                    p == 1,
            ;
            assert(v == m * pow10((PRICE_SCALE - k) as nat));
            if v > u64::MAX as u128 {
                None
            } else {
                Some(v as u64)
            }
        },
    }
}

fn is_zero_size(size: &String) -> (r: bool)
    ensures
        r == (size@ == seq!['0']),
{
    let s = size.as_str();
    if s.unicode_len() == 1 && s.get_char(0) == '0' {
        assert(s@ =~= seq!['0']);
        true
    } else {
        false
    }
}

/// Index of the entry the side's best price is taken from.
pub fn pick_level(levels: &Vec<Level>) -> (r: Option<usize>)
    ensures
        r matches Some(i) ==> chosen_level(levels@) == Some(i as int),
        r is None ==> chosen_level(levels@) is None,
{
    if levels.len() > 0 && !is_zero_size(&levels[0].size) {
        Some(0)
    } else if levels.len() > 1 {
        Some(1)
    } else {
        None
    }
}

fn side_of(levels: &Vec<Level>) -> (r: Option<Option<u64>>)
    ensures
        r == side_units(levels@),
{
    match pick_level(levels) {
        Some(i) => Some(price_units(parse_decimal(levels[i].price.as_str()))),
        None => None,
    }
}

impl TopOfBook {
    /// Both sides zero, as at start-up.
    pub fn new() -> (r: TopOfBook)
        ensures
            r.best_bid == 0,
            r.best_ask == 0,
    {
        TopOfBook { best_bid: 0, best_ask: 0 }
    }

    /// Applies what the two sides of a message say; an unusable side drops the whole message.
    /// Returns whether the message was taken.
    pub fn apply_sides(&mut self, bid: Option<Option<u64>>, ask: Option<Option<u64>>) -> (r: bool)
        ensures
            r == (side_is_usable(bid) && side_is_usable(ask)),
            r ==> final(self).best_bid == updated_price(old(self).best_bid, bid),
            r ==> final(self).best_ask == updated_price(old(self).best_ask, ask),
            !r ==> *final(self) == *old(self),
    {
        if bid == Some(None::<u64>) || ask == Some(None::<u64>) {
            return false;
        }
        if let Some(Some(u)) = bid {
            self.best_bid = u;
        }
        if let Some(Some(u)) = ask {
            self.best_ask = u;
        }
        true
    }

    /// Updates the book from a level-1 message on `topic`; a message on another topic, or
    /// one whose chosen price does not parse, leaves it unchanged. Returns whether it was taken.
    pub fn apply_message(&mut self, msg: &BookMessage, topic: &str) -> (r: bool)
        ensures
            r == message_applies(*msg, topic@),
            r ==> final(self).best_bid == updated_price(old(self).best_bid, side_units(msg.bids@)),
            r ==> final(self).best_ask == updated_price(old(self).best_ask, side_units(msg.asks@)),
            !r ==> *final(self) == *old(self),
    {
        let matches_topic = match &msg.topic {
            Some(t) => *t == String::from_str(topic),
            None => false,
        };
        if !matches_topic {
            return false;
        }
        let bid = side_of(&msg.bids);
        let ask = side_of(&msg.asks);
        self.apply_sides(bid, ask)
    }
}

} // verus!
