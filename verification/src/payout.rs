//! The split-payout arithmetic: each recipient's share is the truncating
//! integer division `amount * percentage / 100`, and the shares of a full
//! recipient list never sum to more than the amount; any shortfall from
//! truncation stays in custody and is never separately moved.

use vstd::prelude::*;
use vstd::arithmetic::div_mod::{
    lemma_div_is_ordered, lemma_div_pos_is_pos, lemma_fundamental_div_mod,
    lemma_div_multiples_vanish, lemma_hoist_over_denominator, lemma_mod_bound,
};
use crate::data::sum_pcts;

verus! {

/// The share owed to a recipient holding `pct` of a deposit of `amount`:
/// truncating integer division, rounded down.
pub open spec fn share_of(amount: int, pct: int) -> int {
    amount * pct / 100
}

/// Sum of the shares owed to the first `n` recipients.
pub open spec fn sum_shares(amount: int, s: Seq<(u64, u32)>, n: int) -> int
    decreases n,
{
    if n <= 0 {
        0
    } else {
        sum_shares(amount, s, n - 1) + share_of(amount, s[n - 1].1 as int)
    }
}

/// Sum of the amounts of the first `n` payout instructions.
pub open spec fn sum_payouts(p: Seq<(u64, i128)>, n: int) -> int
    decreases n,
{
    if n <= 0 {
        0
    } else {
        sum_payouts(p, n - 1) + p[n - 1].1
    }
}

/// The payout instructions list one entry per recipient, in declaration
/// order, each carrying that recipient's share of the deposit.
pub open spec fn payouts_match(amount: i128, recips: Seq<(u64, u32)>, payouts: Seq<(u64, i128)>) -> bool {
    &&& payouts.len() == recips.len()
    &&& forall|k: int| 0 <= k < recips.len() ==> (#[trigger] payouts[k]).0 == recips[k].0
        && payouts[k].1 == share_of(amount as int, recips[k].1 as int)
}

/// A single share is never negative and never exceeds the deposit.
pub proof fn lemma_share_bounds(amount: int, pct: int)
    requires
        amount > 0,
        0 <= pct <= 100,
    ensures
        0 <= share_of(amount, pct) <= amount,
{
    assert(0 <= amount * pct && amount * pct <= amount * 100) by (nonlinear_arith)
        requires
            amount > 0,
            0 <= pct <= 100,
    ;
    lemma_div_pos_is_pos(amount * pct, 100);
    lemma_div_is_ordered(amount * pct, amount * 100, 100);
    lemma_div_multiples_vanish(amount, 100);
    assert(amount * 100 == 100 * amount) by (nonlinear_arith);
}

/// The overflow-free decomposition of a share: splitting the deposit into
/// hundreds and remainder computes the same truncating division.
pub proof fn lemma_share_decompose(a: int, p: int)
    requires
        a > 0,
        0 <= p <= 100,
    ensures
        (a / 100) * p + ((a % 100) * p) / 100 == share_of(a, p),
{
    let q = a / 100;
    let r = a % 100;
    lemma_fundamental_div_mod(a, 100);
    lemma_mod_bound(a, 100);
    assert(a * p == r * p + (q * p) * 100) by (nonlinear_arith)
        requires
            a == 100 * q + r,
    ;
    lemma_hoist_over_denominator(r * p, q * p, 100);
}

/// Each recipient's share, computed without overflowing the 128-bit range.
pub fn compute_share(amount: i128, pct: u32) -> (s: i128)
    requires
        amount > 0,
        pct <= 100,
    ensures
        s == share_of(amount as int, pct as int),
        0 <= s <= amount,
{
    proof {
        lemma_share_bounds(amount as int, pct as int);
        lemma_share_decompose(amount as int, pct as int);
        lemma_mod_bound(amount as int, 100);
        lemma_fundamental_div_mod(amount as int, 100);
        assert((amount as int / 100) * (pct as int) <= (amount as int / 100) * 100)
            by (nonlinear_arith)
            requires
                amount as int / 100 >= 0,
                0 <= pct <= 100,
        {
            lemma_div_pos_is_pos(amount as int, 100);
        }
        lemma_div_pos_is_pos(amount as int, 100);
    }
    let a = amount as u128;
    let q = a / 100;
    let r = a % 100;
    let p = pct as u128;
    proof {
        lemma_mod_bound(a as int, 100);
        lemma_fundamental_div_mod(a as int, 100);
        assert(r * p <= 9900) by (nonlinear_arith)
            requires
                r < 100,
                p <= 100,
        ;
    }
    let hi = q * p;
    let lo = (r * p) / 100;
    (hi + lo) as i128
}

/// Sum of the shares of the first `n` recipients, bounded through the sum
/// of their percentages: one hundred times the payout never exceeds the
/// deposit times the percentage total.
proof fn lemma_sum_shares_scaled(amount: int, s: Seq<(u64, u32)>, n: int)
    requires
        amount > 0,
        0 <= n <= s.len(),
    ensures
        0 <= sum_shares(amount, s, n),
        100 * sum_shares(amount, s, n) <= amount * sum_pcts(s, n),
    decreases n,
{
    if n > 0 {
        lemma_sum_shares_scaled(amount, s, n - 1);
        let p = s[n - 1].1 as int;
        let sh = share_of(amount, p);
        assert(amount * p >= 0) by (nonlinear_arith)
            requires
                amount > 0,
                p >= 0,
        ;
        lemma_div_pos_is_pos(amount * p, 100);
        lemma_fundamental_div_mod(amount * p, 100);
        lemma_mod_bound(amount * p, 100);
        assert(100 * sh <= amount * p);
        assert(100 * sum_shares(amount, s, n) <= amount * sum_pcts(s, n))
            by (nonlinear_arith)
            requires
                sum_shares(amount, s, n) == sum_shares(amount, s, n - 1) + sh,
                sum_pcts(s, n) == sum_pcts(s, n - 1) + p,
                100 * sum_shares(amount, s, n - 1) <= amount * sum_pcts(s, n - 1),
                100 * sh <= amount * p,
        ;
    }
}

/// Payout conservation: for a deposit whose percentages sum to exactly 100,
/// the disbursed shares sum to at least zero and at most the full amount;
/// the truncation shortfall stays in custody.
pub proof fn lemma_payout_conservation(amount: int, recipients: Seq<(u64, u32)>)
    requires
        amount > 0,
        sum_pcts(recipients, recipients.len() as int) == 100,
    ensures
        0 <= sum_shares(amount, recipients, recipients.len() as int) <= amount,
{
    let n = recipients.len() as int;
    lemma_sum_shares_scaled(amount, recipients, n);
    assert(100 * sum_shares(amount, recipients, n) <= amount * 100);
    assert(sum_shares(amount, recipients, n) <= amount) by (nonlinear_arith)
        requires
            100 * sum_shares(amount, recipients, n) <= amount * 100,
    ;
}

/// A payout list whose entries each carry the share of the matching
/// recipient sums to the same total as the shares themselves.
pub proof fn lemma_sum_payouts_matches(
    payouts: Seq<(u64, i128)>,
    amount: int,
    s: Seq<(u64, u32)>,
    n: int,
)
    requires
        0 <= n <= payouts.len(),
        n <= s.len(),
        forall|k: int| 0 <= k < n ==> (#[trigger] payouts[k]).1 == share_of(amount, s[k].1 as int),
    ensures
        sum_payouts(payouts, n) == sum_shares(amount, s, n),
    decreases n,
{
    if n > 0 {
        lemma_sum_payouts_matches(payouts, amount, s, n - 1);
    }
}

} // verus!
