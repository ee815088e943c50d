//! Laws of the pool's accounting over runs of calls: share value never drops
//! through deposits, withdrawals or kept stakes, and a deposit withdrawn at
//! once returns no more than was put in.

use crate::msg::{attached_native, MessageInfo, STAKE_DENOM};
use crate::pool::{
    deposit_fits, deposit_post, lemma_withdraw_within_reserve, mint_amount, play_post, withdraw_amount,
    withdraw_post, Pool, PoolResult,
};
use vstd::arithmetic::div_mod::{
    lemma_div_is_ordered, lemma_div_multiples_vanish, lemma_fundamental_div_mod, lemma_mod_pos_bound,
};
use vstd::prelude::*;

verus! {

/// One step of the pool's accounting, as the handlers perform it.
pub enum PoolOp {
    /// A deposit of this many units of stake.
    Deposit(nat),
    /// A withdrawal of this many shares.
    Withdraw(nat),
    /// A lost bet whose stake the house keeps.
    HouseWin(nat),
}

/// Reserve and supply after `op`, or `None` where the handler refuses it.
pub open spec fn apply_op(reserve: nat, supply: nat, op: PoolOp) -> Option<(nat, nat)> {
    match op {
        PoolOp::Deposit(amount) => if amount > 0 && deposit_fits(supply, reserve, amount) {
            Some((reserve + amount, supply + mint_amount(supply, reserve, amount)))
        } else {
            None
        },
        PoolOp::Withdraw(shares) => if 0 < shares <= supply && reserve * shares <= u128::MAX {
            Some(((reserve - withdraw_amount(supply, reserve, shares)) as nat, (supply - shares) as nat))
        } else {
            None
        },
        PoolOp::HouseWin(stake) => if reserve + stake <= u128::MAX {
            Some((reserve + stake, supply))
        } else {
            None
        },
    }
}

/// Reserve and supply after the steps `ops` in order, or `None` where one is
/// refused; `positive` says whether shares stay outstanding after every step.
pub open spec fn run_ops(reserve: nat, supply: nat, ops: Seq<PoolOp>) -> Option<(nat, nat, bool)>
    decreases ops.len(),
{
    if ops.len() == 0 {
        Some((reserve, supply, true))
    } else {
        match apply_op(reserve, supply, ops[0]) {
            None => None,
            Some((r1, s1)) => match run_ops(r1, s1, ops.subrange(1, ops.len() as int)) {
                None => None,
                Some((r2, s2, positive)) => Some((r2, s2, positive && s1 > 0)),
            },
        }
    }
}

proof fn lemma_div_floor(x: nat, d: nat)
    requires
        d > 0,
    ensures
        (x / d) * d <= x,
{
    lemma_fundamental_div_mod(x as int, d as int);
    lemma_mod_pos_bound(x as int, d as int);
    assert((x / d) * d == d * (x / d)) by (nonlinear_arith);
}

pub(crate) proof fn lemma_step_keeps_share_value(reserve: nat, supply: nat, op: PoolOp)
    requires
        supply > 0,
        apply_op(reserve, supply, op) is Some,
        apply_op(reserve, supply, op)->Some_0.1 > 0,
    ensures
        ({
            let (r1, s1) = apply_op(reserve, supply, op)->Some_0;
            reserve * s1 <= r1 * supply
        }),
{
    match op {
        PoolOp::Deposit(amount) => {
            let m = mint_amount(supply, reserve, amount);
            if reserve == 0 {
                assert(0 <= (reserve + amount) * supply) by (nonlinear_arith);
            } else {
                lemma_div_floor(supply * amount, reserve);
                assert(reserve * (supply + m) <= (reserve + amount) * supply) by (nonlinear_arith)
                    requires
                        m * reserve <= supply * amount,
                ;
            }
        },
        PoolOp::Withdraw(shares) => {
            let p = withdraw_amount(supply, reserve, shares);
            lemma_div_floor(reserve * shares, supply);
            lemma_withdraw_within_reserve(supply, reserve, shares);
            assert(reserve * ((supply - shares) as nat) <= ((reserve - p) as nat) * supply) by (nonlinear_arith)
                requires
                    p * supply <= reserve * shares,
                    p <= reserve,
                    shares <= supply,
            ;
        },
        PoolOp::HouseWin(stake) => {
            assert(reserve * supply <= (reserve + stake) * supply) by (nonlinear_arith);
        },
    }
}

/// Share value never drops through deposits, withdrawals or kept stakes:
/// while shares stay outstanding, reserve per share after any run of these
/// steps is at least what it was before (`reserve / supply <= r2 / s2`).
pub proof fn lemma_share_value_never_drops(reserve: nat, supply: nat, ops: Seq<PoolOp>)
    requires
        supply > 0,
        run_ops(reserve, supply, ops) is Some,
        run_ops(reserve, supply, ops)->Some_0.2,
    ensures
        ({
            let (r2, s2, _) = run_ops(reserve, supply, ops)->Some_0;
            reserve * s2 <= r2 * supply
        }),
    decreases ops.len(),
{
    if ops.len() > 0 {
        let (r1, s1) = apply_op(reserve, supply, ops[0])->Some_0;
        let rest = ops.subrange(1, ops.len() as int);
        lemma_step_keeps_share_value(reserve, supply, ops[0]);
        lemma_share_value_never_drops(r1, s1, rest);
        let (r2, s2, _) = run_ops(r1, s1, rest)->Some_0;
        assert(reserve * s2 <= r2 * supply) by (nonlinear_arith)
            requires
                reserve * s1 <= r1 * supply,
                r1 * s2 <= r2 * s1,
                s1 > 0,
                supply > 0,
        ;
    } else {
        assert(reserve * supply <= reserve * supply);
    }
}

/// A deposit withdrawn at once returns at most what was deposited: the
/// stake that the shares just minted for `amount` redeem for is no more than
/// `amount`, unless the pool held reserve with no shares outstanding.
pub proof fn lemma_deposit_withdraw_round_trip(reserve: nat, supply: nat, amount: nat)
    requires
        amount > 0,
        deposit_fits(supply, reserve, amount),
        !(supply == 0 && reserve > 0),
    ensures
        ({
            let minted = mint_amount(supply, reserve, amount);
            withdraw_amount(supply + minted, reserve + amount, minted) <= amount
        }),
{
    let m = mint_amount(supply, reserve, amount);
    let s2 = supply + m;
    let r2 = reserve + amount;
    if supply == 0 || reserve == 0 {
        assert(r2 == amount && m == amount && s2 >= amount);
        assert(r2 * m <= amount * s2) by (nonlinear_arith)
            requires
                m == amount,
                r2 == amount,
                s2 >= amount,
        ;
    } else {
        lemma_div_floor(supply * amount, reserve);
        assert(r2 * m <= amount * s2) by (nonlinear_arith)
            requires
                m * reserve <= supply * amount,
                r2 == reserve + amount,
                s2 == supply + m,
        ;
    }
    assert(s2 > 0);
    lemma_div_is_ordered((r2 * m) as int, (amount * s2) as int, s2 as int);
    lemma_div_multiples_vanish(amount as int, s2 as int);
    assert(amount * s2 == s2 * amount) by (nonlinear_arith);
}

/// The reserve and share supply of a pool.
pub open spec fn totals(p: Pool) -> (nat, nat) {
    (p.config.pool as nat, p.token.total_supply as nat)
}

/// A successful deposit call is the step `Deposit` of the attached amount.
pub proof fn lemma_deposit_call_is_step(old: Pool, new: Pool, info: MessageInfo, r: PoolResult)
    requires
        deposit_post(old, new, info, r),
        r is Ok,
    ensures
        attached_native(info.sent_funds@, STAKE_DENOM@) is Some,
        apply_op(
            old.config.pool as nat,
            old.token.total_supply as nat,
            PoolOp::Deposit(attached_native(info.sent_funds@, STAKE_DENOM@)->Some_0 as nat),
        ) == Some(totals(new)),
{
}

/// A successful withdrawal call is the step `Withdraw` of the burned shares.
pub proof fn lemma_withdraw_call_is_step(
    old: Pool,
    new: Pool,
    holder: Seq<u8>,
    payee: Seq<u8>,
    amount: u128,
    r: PoolResult,
)
    requires
        old.wf(),
        withdraw_post(old, new, holder, payee, amount, r),
        r is Ok,
    ensures
        apply_op(old.config.pool as nat, old.token.total_supply as nat, PoolOp::Withdraw(amount as nat))
            == Some(totals(new)),
{
    crate::ledger::lemma_balance_within_total(old.balances@, holder);
    lemma_withdraw_within_reserve(old.token.total_supply as nat, old.config.pool as nat, amount as nat);
}

/// A successful report of a lost bet is the step `HouseWin` of its stake.
pub proof fn lemma_house_win_call_is_step(
    old: Pool,
    new: Pool,
    caller: Seq<u8>,
    bet_amount: u128,
    prize_amount: u128,
    winner: Seq<u8>,
    r: PoolResult,
)
    requires
        play_post(old, new, caller, false, bet_amount, prize_amount, winner, r),
        r is Ok,
    ensures
        apply_op(old.config.pool as nat, old.token.total_supply as nat, PoolOp::HouseWin(bet_amount as nat))
            == Some(totals(new)),
{
}

} // verus!
