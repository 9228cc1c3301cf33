use crate::book::TopOfBook;
use crate::decimal::{decimal_text, decimal_to_string, pow10, round_dp, round_half_even};
use vstd::prelude::*;

verus! {

/// Quote prices are held as integer counts of `10^-QUOTE_SCALE`: exact for a mid of two
/// 8-digit prices moved by a whole number of basis points.
pub const QUOTE_SCALE: u32 = 13;

/// Fractional digits of the venue's price tick.
pub const TICK_DP: u32 = 1;

/// Basis points in one.
pub const BPS_ONE: u64 = 10000;

/// Half-spread and re-quote threshold, both in basis points.
#[derive(Clone, Copy, Debug, PartialEq, Eq, Structural)]
pub struct QuoteParams {
    pub edge_bps: u64,
    pub threshold_bps: u64,
}

impl QuoteParams {
    pub open spec fn wf(&self) -> bool {
        self.edge_bps <= BPS_ONE && self.threshold_bps <= BPS_ONE
    }
}

/// The pair of prices believed to be resting at the venue, in `10^-13` units.
#[derive(Clone, Copy, Debug, PartialEq, Eq, Structural)]
pub struct QuoterState {
    pub my_bid: u128,
    pub my_ask: u128,
}

/// A call the quoter asks of the REST client. `price` is a count of ticks (`10^-TICK_DP`).
#[derive(Clone, Copy, Debug, PartialEq, Eq, Structural)]
pub enum RestCall {
    CancelAll,
    Place { price: u128, is_buy: bool },
}

/// Twice the book's mid, in `10^-8` units.
pub open spec fn book_mid2(tob: TopOfBook) -> nat {
    (tob.best_bid + tob.best_ask) as nat
}

/// `mid * (1 - edge)` in `10^-13` units.
pub open spec fn target_bid(tob: TopOfBook, edge_bps: nat) -> nat {
    (book_mid2(tob) * 5 * (BPS_ONE - edge_bps)) as nat
}

/// `mid * (1 + edge)` in `10^-13` units.
pub open spec fn target_ask(tob: TopOfBook, edge_bps: nat) -> nat {
    (book_mid2(tob) * 5 * (BPS_ONE + edge_bps)) as nat
}

/// A price in `10^-13` units rounded to the tick, ties to even, as a count of ticks.
pub open spec fn tick_of(q: nat) -> nat {
    round_half_even(q, pow10((QUOTE_SCALE - TICK_DP) as nat))
}

/// Whether the book can be quoted against: not empty (both sides zero), and not inverted (two
/// non-zero sides with the bid at or above the ask).
pub open spec fn book_usable(tob: TopOfBook) -> bool {
    &&& !(tob.best_bid == 0 && tob.best_ask == 0)
    &&& !(tob.best_bid != 0 && tob.best_ask != 0 && tob.best_bid >= tob.best_ask)
}

pub open spec fn abs_diff(a: nat, b: nat) -> nat {
    if a >= b {
        (a - b) as nat
    } else {
        (b - a) as nat
    }
}

/// The re-quote rule, on doubled mids in `10^-13` units: a first quote when nothing rests, else a
/// relative move of the mid above the threshold.
pub open spec fn should_requote(tob: TopOfBook, q: QuoterState, threshold_bps: nat) -> bool {
    let mid2 = book_mid2(tob) * 100000;
    let my2 = (q.my_bid + q.my_ask) as nat;
    (my2 == 0 && mid2 != 0) || (my2 != 0 && abs_diff(mid2, my2) * BPS_ONE > threshold_bps * my2)
}

/// The calls that replace the resting pair with the new targets.
pub open spec fn requote_calls(tob: TopOfBook, edge_bps: nat) -> Seq<RestCall> {
    seq![
        RestCall::CancelAll,
        RestCall::Place { price: tick_of(target_bid(tob, edge_bps)) as u128, is_buy: true },
        RestCall::Place { price: tick_of(target_ask(tob, edge_bps)) as u128, is_buy: false },
    ]
}

/// Bid and ask targets around the book's mid, un-rounded, in `10^-13` units.
pub fn target_quote(tob: TopOfBook, edge_bps: u64) -> (r: (u128, u128))
    requires
        edge_bps <= BPS_ONE,
    ensures
        r.0 == target_bid(tob, edge_bps as nat),
        r.1 == target_ask(tob, edge_bps as nat),
        r.0 <= crate::decimal::MAX_MANTISSA,
        r.1 <= crate::decimal::MAX_MANTISSA,
{
    let mid2: u128 = tob.best_bid as u128 + tob.best_ask as u128;
    assert(mid2 * 5 * (BPS_ONE - edge_bps) <= 0x3_FFFF_FFFF_FFFF_FFFF * 5 * 20000) by (
    nonlinear_arith)
        requires
            mid2 <= 0x3_FFFF_FFFF_FFFF_FFFF,
            edge_bps <= BPS_ONE,
    ;
    assert(mid2 * 5 * (BPS_ONE + edge_bps) <= 0x3_FFFF_FFFF_FFFF_FFFF * 5 * 20000) by (
    nonlinear_arith)
        requires
            mid2 <= 0x3_FFFF_FFFF_FFFF_FFFF,
            edge_bps <= BPS_ONE,
    ;
    (mid2 * 5 * ((BPS_ONE - edge_bps) as u128), mid2 * 5 * ((BPS_ONE + edge_bps) as u128))
}

/// A target price rounded to the venue tick (midpoint to even), as a count of ticks.
pub fn tick_price(q: u128) -> (r: u128)
    requires
        q <= crate::decimal::MAX_MANTISSA,
    ensures
        r == tick_of(q as nat),
{
    round_dp(q, QUOTE_SCALE, TICK_DP)
}

/// Text of a tick count as the venue takes prices: `TICK_DP` fractional digits.
pub fn tick_text(ticks: u128) -> (r: String)
    requires
        ticks <= crate::decimal::MAX_MANTISSA,
    ensures
        r@ == decimal_text(ticks as nat, TICK_DP as nat),
{
    decimal_to_string(ticks, TICK_DP)
}

impl QuoterState {
    pub open spec fn wf(&self) -> bool {
        self.my_bid <= crate::decimal::MAX_MANTISSA && self.my_ask <= crate::decimal::MAX_MANTISSA
    }

    /// Nothing resting yet.
    pub fn new() -> (r: QuoterState)
        ensures
            r.wf(),
            r.my_bid == 0,
            r.my_ask == 0,
    {
        QuoterState { my_bid: 0, my_ask: 0 }
    }

    /// One round of the quoter against a snapshot of the book. Re-quotes (cancel-all, then a buy
    /// at the rounded bid target, then a sell at the rounded ask target) exactly when the book is
    /// usable and the re-quote rule holds; the resting pair then becomes the un-rounded targets.
    pub fn step(&mut self, tob: TopOfBook, params: QuoteParams) -> (r: Vec<RestCall>)
        requires
            old(self).wf(),
            params.wf(),
        ensures
            final(self).wf(),
            book_usable(tob) && should_requote(tob, *old(self), params.threshold_bps as nat) ==> {
                &&& r@ == requote_calls(tob, params.edge_bps as nat)
                &&& final(self).my_bid == target_bid(tob, params.edge_bps as nat)
                &&& final(self).my_ask == target_ask(tob, params.edge_bps as nat)
            },
            !(book_usable(tob) && should_requote(tob, *old(self), params.threshold_bps as nat))
                ==> r@.len() == 0 && *final(self) == *old(self),
    {
        if (tob.best_bid == 0 && tob.best_ask == 0) || (tob.best_bid != 0 && tob.best_ask != 0
            && tob.best_bid >= tob.best_ask) {
            return Vec::new();
        }
        let mid2: u128 = (tob.best_bid as u128 + tob.best_ask as u128) * 100000;
        let my2: u128 = self.my_bid + self.my_ask;
        let diff: u128 = if mid2 >= my2 {
            mid2 - my2
        } else {
            my2 - mid2
        };
        assert(diff * BPS_ONE <= 0x3_FFFF_FFFF_FFFF_FFFF_FFFF_FFFF * 10000) by (nonlinear_arith)
            requires
                diff <= 0x3_FFFF_FFFF_FFFF_FFFF_FFFF_FFFF,
        ;
        assert(params.threshold_bps * my2 <= 10000 * 0x3_FFFF_FFFF_FFFF_FFFF_FFFF_FFFF) by (
        nonlinear_arith)
            requires
                params.threshold_bps <= 10000,
                my2 <= 0x3_FFFF_FFFF_FFFF_FFFF_FFFF_FFFF,
        ;
        let requote = (my2 == 0 && mid2 != 0) || (my2 != 0 && diff * (BPS_ONE as u128) > (
        params.threshold_bps as u128) * my2);
        if !requote {
            return Vec::new();
        }
        let (new_bid, new_ask) = target_quote(tob, params.edge_bps);
        let bid_ticks = tick_price(new_bid);
        let ask_ticks = tick_price(new_ask);
        let mut calls: Vec<RestCall> = Vec::new();
        calls.push(RestCall::CancelAll);
        calls.push(RestCall::Place { price: bid_ticks, is_buy: true });
        calls.push(RestCall::Place { price: ask_ticks, is_buy: false });
        self.my_bid = new_bid;
        self.my_ask = new_ask;
        assert(calls@ =~= requote_calls(tob, params.edge_bps as nat));
        calls
    }
}

/// When the book's mid equals the resting pair's mid exactly, the quoter does not re-quote.
pub proof fn lemma_equal_mid_is_idle(tob: TopOfBook, q: QuoterState, threshold_bps: nat)
    requires
        book_mid2(tob) * 100000 == q.my_bid + q.my_ask,
    ensures
        !should_requote(tob, q, threshold_bps),
{
}

/// With nothing resting and a usable book, the quoter re-quotes, whatever the threshold.
pub proof fn lemma_first_quote(tob: TopOfBook, q: QuoterState, threshold_bps: nat)
    requires
        q.my_bid + q.my_ask == 0,
        book_usable(tob),
    ensures
        should_requote(tob, q, threshold_bps),
{
}

} // verus!
