//! The liquidity pool: reserve accounting, share minting and burning, and the
//! settlement of reported game results.

use crate::bytes::{
    contains_bytes, copy_bytes, drop_all, listed, same_bytes, views, without_bytes,
};
use crate::error::PoolError;
use crate::ledger::{
    accounts_unique, balance_of, lemma_balance_within_total, lemma_prefix_sum_le, read_balance,
    sum_amounts, total_amount, unique_accounts, write_balance, Balance,
};
use crate::msg::{
    attached_native, native_amount, Cw20HookMsg, Cw20ReceiveMsg, HandleResponse, MessageInfo,
    Outbound, STAKE_DENOM,
};
use vstd::arithmetic::div_mod::{lemma_div_is_ordered, lemma_div_multiples_vanish};
use vstd::arithmetic::mul::lemma_mul_inequality;
use crate::share_value::{lemma_step_keeps_share_value, PoolOp};
use vstd::prelude::*;

verus! {

/// The pool's configuration and reserve.
#[derive(Clone, Debug, PartialEq, Eq)]
pub struct Config {
    pub owner: Vec<u8>,
    /// The share token contract, the only caller of the withdraw callback.
    pub pool_token: Vec<u8>,
    /// The stake token contract.
    pub decasino_token: Vec<u8>,
    /// The game contracts allowed to report results.
    pub game_contracts: Vec<Vec<u8>>,
    /// The reserve, in the smallest unit of the stake coin.
    pub pool: u128,
}

/// Metadata and total supply of the share token.
#[derive(Clone, Debug, PartialEq, Eq)]
pub struct TokenInfo {
    pub name: String,
    pub symbol: String,
    pub decimals: u8,
    pub total_supply: u128,
}

/// The whole state of the pool.
#[derive(Clone, Debug, PartialEq, Eq)]
pub struct Pool {
    pub config: Config,
    pub token: TokenInfo,
    pub balances: Vec<Balance>,
}

/// The pool's answer to a configuration query.
#[derive(Clone, Debug, PartialEq, Eq)]
pub struct HouseResponse {
    pub owner: Vec<u8>,
    pub pool: u128,
    pub game_contracts: Vec<Vec<u8>>,
}

/// What a successful pool call did.
#[derive(Clone, Debug, PartialEq, Eq)]
pub enum PoolEvent {
    OwnerUpdated { owner: Vec<u8> },
    PoolTokenUpdated { pool_token: Vec<u8> },
    DecasinoTokenUpdated { decasino_token: Vec<u8> },
    GameContractAdded { game_contract: Vec<u8> },
    GameContractRemoved { game_contract: Vec<u8> },
    Minted { amount: u128 },
    Withdrawn { amount: u128, send_amount: u128 },
    PlayReported { won: bool, bet_amount: u128, prize_amount: u128, winner: Vec<u8> },
    Transferred { from: Vec<u8>, to: Vec<u8>, amount: u128 },
    Sent { from: Vec<u8>, to: Vec<u8>, amount: u128 },
}

impl Pool {
    /// Account entries are distinct and their balances add up to the supply.
    pub open spec fn wf(&self) -> bool {
        &&& unique_accounts(self.balances@)
        &&& sum_amounts(self.balances@) == self.token.total_supply
    }

    /// Whether a pool, as loaded from storage, is well formed.
    pub fn is_consistent(&self) -> (r: bool)
        ensures
            r == self.wf(),
    {
        accounts_unique(&self.balances) && match total_amount(&self.balances) {
            Some(t) => t == self.token.total_supply,
            None => false,
        }
    }

    /// The share balance of account `a`.
    pub open spec fn shares_of(&self, a: Seq<u8>) -> nat {
        balance_of(self.balances@, a)
    }
}

/// Shares minted for a deposit of `amount`: one per unit while the pool is
/// empty, otherwise in proportion to the supply, rounded down.
pub open spec fn mint_amount(supply: nat, reserve: nat, amount: nat) -> nat {
    if supply == 0 || reserve == 0 {
        amount
    } else {
        supply * amount / reserve
    }
}

/// Whether a deposit of `amount` keeps every quantity within 128 bits.
pub open spec fn deposit_fits(supply: nat, reserve: nat, amount: nat) -> bool {
    &&& reserve + amount <= u128::MAX
    &&& (supply == 0 || reserve == 0 || supply * amount <= u128::MAX)
    &&& supply + mint_amount(supply, reserve, amount) <= u128::MAX
}

/// Stake paid out for `shares` burned: their proportion of the reserve,
/// rounded down.
pub open spec fn withdraw_amount(supply: nat, reserve: nat, shares: nat) -> nat {
    if supply == 0 {
        0
    } else {
        reserve * shares / supply
    }
}

/// Whether `a` may report game results.
pub open spec fn is_game_contract(cfg: Config, a: Seq<u8>) -> bool {
    listed(cfg.game_contracts@, a)
}

/// Every account but `a` keeps its balance, and `a` holds `v`.
pub open spec fn balances_set(old: Seq<Balance>, new: Seq<Balance>, a: Seq<u8>, v: nat) -> bool {
    forall|x: Seq<u8>|
        #[trigger] balance_of(new, x) == if x == a {
            v
        } else {
            balance_of(old, x)
        }
}

/// `m` transfers `amount` of the stake coin to `to`.
pub open spec fn is_bank_send(m: Outbound, to: Seq<u8>, amount: nat) -> bool {
    match m {
        Outbound::BankSend { to_address, amount: sent } => to_address@ == to && sent == amount,
        _ => false,
    }
}

pub(crate) proof fn lemma_withdraw_within_reserve(supply: nat, reserve: nat, shares: nat)
    requires
        0 < supply,
        shares <= supply,
    ensures
        withdraw_amount(supply, reserve, shares) <= reserve,
{
    lemma_mul_inequality(shares as int, supply as int, reserve as int);
    assert(reserve * shares == shares * reserve) by (nonlinear_arith);
    assert(reserve * supply == supply * reserve) by (nonlinear_arith);
    lemma_div_is_ordered((reserve * shares) as int, (reserve * supply) as int, supply as int);
    lemma_div_multiples_vanish(reserve as int, supply as int);
}

/// The result type of every pool handler.
pub type PoolResult = Result<HandleResponse<PoolEvent>, PoolError>;

/// `r` succeeded with no outbound message and the event `e`.
pub open spec fn ok_quiet(r: PoolResult, e: PoolEvent) -> bool {
    match r {
        Ok(resp) => resp.messages@.len() == 0 && resp.event == e,
        Err(_) => false,
    }
}

/// `r` failed with `e` and the pool is as it was.
pub open spec fn failed(old: Pool, new: Pool, r: PoolResult, e: PoolError) -> bool {
    r == Err::<HandleResponse<PoolEvent>, PoolError>(e) && new == old
}

/// Outcome of a deposit of the stake coin attached to `info`.
pub open spec fn deposit_post(old: Pool, new: Pool, info: MessageInfo, r: PoolResult) -> bool {
    match attached_native(info.sent_funds@, STAKE_DENOM@) {
        None => failed(old, new, r, PoolError::InvalidZeroAmount),
        Some(amount) => {
            let supply = old.token.total_supply as nat;
            let reserve = old.config.pool as nat;
            let minted = mint_amount(supply, reserve, amount as nat);
            if amount == 0 {
                failed(old, new, r, PoolError::InvalidZeroAmount)
            } else if !deposit_fits(supply, reserve, amount as nat) {
                failed(old, new, r, PoolError::Overflow)
            } else {
                &&& ok_quiet(r, PoolEvent::Minted { amount: minted as u128 })
                &&& supply > 0 ==> reserve * (supply + minted) <= (reserve + amount) * supply
                &&& new.config == (Config { pool: (reserve + amount) as u128, ..old.config })
                &&& new.token == (TokenInfo { total_supply: (supply + minted) as u128, ..old.token })
                &&& balances_set(
                    old.balances@,
                    new.balances@,
                    info.sender@,
                    old.shares_of(info.sender@) + minted,
                )
            }
        },
    }
}

/// Outcome of burning `amount` of the shares `holder` holds and paying their
/// part of the reserve to `payee`.
pub open spec fn withdraw_post(
    old: Pool,
    new: Pool,
    holder: Seq<u8>,
    payee: Seq<u8>,
    amount: u128,
    r: PoolResult,
) -> bool {
    let supply = old.token.total_supply as nat;
    let reserve = old.config.pool as nat;
    let paid = withdraw_amount(supply, reserve, amount as nat);
    if amount == 0 {
        failed(old, new, r, PoolError::InvalidZeroAmount)
    } else if amount > old.shares_of(holder) {
        failed(old, new, r, PoolError::InsufficientBalance)
    } else if reserve * amount > u128::MAX {
        failed(old, new, r, PoolError::Overflow)
    } else {
        &&& match r {
            Ok(resp) => resp.messages@.len() == 1 && is_bank_send(resp.messages@[0], payee, paid)
                && resp.event == (PoolEvent::Withdrawn { amount, send_amount: paid as u128 }),
            Err(_) => false,
        }
        &&& supply > amount ==> reserve * (supply - amount) <= (reserve - paid) * supply
        &&& new.config == (Config { pool: (reserve - paid) as u128, ..old.config })
        &&& new.token == (TokenInfo { total_supply: (supply - amount) as u128, ..old.token })
        &&& balances_set(
            old.balances@,
            new.balances@,
            holder,
            (old.shares_of(holder) - amount) as nat,
        )
    }
}

/// Outcome of the share token's notification `msg`, sent by `caller`, that
/// `msg.sender` hands `msg.amount` of its shares back to the pool.
pub open spec fn withdraw_cw20_post(
    old: Pool,
    new: Pool,
    caller: Seq<u8>,
    msg: Cw20ReceiveMsg,
    r: PoolResult,
) -> bool {
    match msg.msg {
        None => failed(old, new, r, PoolError::MissingHookMsg),
        Some(Cw20HookMsg::Withdraw {  }) => if caller != old.config.pool_token@ {
            failed(old, new, r, PoolError::Unauthorized)
        } else {
            withdraw_post(old, new, msg.sender@, msg.sender@, msg.amount, r)
        },
    }
}

/// `e` records a reported play with these values.
pub open spec fn is_play_event(
    e: PoolEvent,
    won: bool,
    bet_amount: u128,
    prize_amount: u128,
    winner: Seq<u8>,
) -> bool {
    match e {
        PoolEvent::PlayReported { won: w, bet_amount: b, prize_amount: p, winner: who } => w == won
            && b == bet_amount && p == prize_amount && who@ == winner,
        _ => false,
    }
}

/// Outcome of a game contract reporting a settled bet.
pub open spec fn play_post(
    old: Pool,
    new: Pool,
    caller: Seq<u8>,
    won: bool,
    bet_amount: u128,
    prize_amount: u128,
    winner: Seq<u8>,
    r: PoolResult,
) -> bool {
    let reserve = old.config.pool as nat;
    if !is_game_contract(old.config, caller) {
        failed(old, new, r, PoolError::Unauthorized)
    } else if won && prize_amount > reserve {
        failed(old, new, r, PoolError::Overflow)
    } else if !won && reserve + bet_amount > u128::MAX {
        failed(old, new, r, PoolError::Overflow)
    } else {
        &&& match r {
            Ok(resp) => is_play_event(resp.event, won, bet_amount, prize_amount, winner) && if won {
                resp.messages@.len() == 1 && is_bank_send(resp.messages@[0], winner, prize_amount as nat)
            } else {
                resp.messages@.len() == 0
            },
            Err(_) => false,
        }
        &&& new.config == (Config {
            pool: (if won {
                reserve - prize_amount
            } else {
                reserve + bet_amount
            }) as u128,
            ..old.config
        })
        &&& !won ==> reserve * old.token.total_supply <= (reserve + bet_amount) * old.token.total_supply
        &&& new.token == old.token
        &&& new.balances == old.balances
    }
}

/// Balance of `x` after `amount` shares move from `from` to `to`.
pub open spec fn moved_balance(old: Seq<Balance>, from: Seq<u8>, to: Seq<u8>, amount: nat, x: Seq<u8>) -> nat {
    if from == to {
        balance_of(old, x)
    } else if x == from {
        (balance_of(old, x) - amount) as nat
    } else if x == to {
        balance_of(old, x) + amount
    } else {
        balance_of(old, x)
    }
}

/// Outcome of moving `amount` shares from `from` to `to`, apart from the
/// response.
pub open spec fn transfer_state_post(
    old: Pool,
    new: Pool,
    from: Seq<u8>,
    to: Seq<u8>,
    amount: u128,
    r: Result<(), PoolError>,
) -> bool {
    if amount == 0 {
        r == Err::<(), PoolError>(PoolError::InvalidZeroAmount) && new == old
    } else if amount > old.shares_of(from) {
        r == Err::<(), PoolError>(PoolError::InsufficientBalance) && new == old
    } else {
        &&& r is Ok
        &&& new.config == old.config
        &&& new.token == old.token
        &&& forall|x: Seq<u8>|
            #[trigger] balance_of(new.balances@, x) == moved_balance(old.balances@, from, to, amount as nat, x)
    }
}

/// Whether `r` succeeded, and with which error it failed.
pub open spec fn outcome(r: PoolResult) -> Result<(), PoolError> {
    match r {
        Ok(_) => Ok(()),
        Err(e) => Err(e),
    }
}

/// `e` records a share transfer with these values.
pub open spec fn is_transfer_event(e: PoolEvent, from: Seq<u8>, to: Seq<u8>, amount: u128) -> bool {
    match e {
        PoolEvent::Transferred { from: f, to: t, amount: a } => f@ == from && t@ == to && a == amount,
        _ => false,
    }
}

/// Outcome of a share transfer by `sender`.
pub open spec fn transfer_post(
    old: Pool,
    new: Pool,
    sender: Seq<u8>,
    recipient: Seq<u8>,
    amount: u128,
    r: PoolResult,
) -> bool {
    &&& transfer_state_post(old, new, sender, recipient, amount, outcome(r))
    &&& r matches Ok(resp) ==> resp.messages@.len() == 0 && is_transfer_event(
        resp.event,
        sender,
        recipient,
        amount,
    )
}

/// `m` notifies `contract` that `sender` moved `amount` shares to it, with `msg`.
pub open spec fn is_receive_notice(
    m: Outbound,
    contract: Seq<u8>,
    sender: Seq<u8>,
    amount: u128,
    msg: Option<Seq<u8>>,
) -> bool {
    match m {
        Outbound::Cw20Receive { contract_addr, sender: s, amount: a, msg: m } => contract_addr@
            == contract && s@ == sender && a == amount && match (m, msg) {
            (None, None) => true,
            (Some(b), Some(c)) => b@ == c,
            _ => false,
        },
        _ => false,
    }
}

/// `e` records a share send with these values.
pub open spec fn is_send_event(e: PoolEvent, from: Seq<u8>, to: Seq<u8>, amount: u128) -> bool {
    match e {
        PoolEvent::Sent { from: f, to: t, amount: a } => f@ == from && t@ == to && a == amount,
        _ => false,
    }
}

/// The view of an optional payload.
pub open spec fn payload_view(msg: Option<Vec<u8>>) -> Option<Seq<u8>> {
    match msg {
        Some(b) => Some(b@),
        None => None,
    }
}

/// Outcome of `sender` sending shares to `contract` with a notification.
pub open spec fn send_post(
    old: Pool,
    new: Pool,
    sender: Seq<u8>,
    contract: Seq<u8>,
    amount: u128,
    msg: Option<Seq<u8>>,
    r: PoolResult,
) -> bool {
    &&& transfer_state_post(old, new, sender, contract, amount, outcome(r))
    &&& r matches Ok(resp) ==> resp.messages@.len() == 1 && is_receive_notice(
        resp.messages@[0],
        contract,
        sender,
        amount,
        msg,
    ) && is_send_event(resp.event, sender, contract, amount)
}

/// Outcome of the owner's call that hands ownership of the pool to `owner`.
pub open spec fn update_owner_post(old: Pool, new: Pool, caller: Seq<u8>, owner: Seq<u8>, r: PoolResult) -> bool {
    if caller != old.config.owner@ {
        failed(old, new, r, PoolError::Unauthorized)
    } else {
        &&& r matches Ok(resp) && resp.messages@.len() == 0
        &&& r->Ok_0.event matches PoolEvent::OwnerUpdated { owner: o } && o@ == owner
        &&& new.config.owner@ == owner
        &&& new.config == (Config { owner: new.config.owner, ..old.config })
        &&& new.token == old.token
        &&& new.balances == old.balances
    }
}

/// Outcome of the owner's call that registers `pool_token` as the share token contract.
pub open spec fn update_pool_token_post(old: Pool, new: Pool, caller: Seq<u8>, pool_token: Seq<u8>, r: PoolResult) -> bool {
    if caller != old.config.owner@ {
        failed(old, new, r, PoolError::Unauthorized)
    } else {
        &&& r matches Ok(resp) && resp.messages@.len() == 0
        &&& r->Ok_0.event matches PoolEvent::PoolTokenUpdated { pool_token: t } && t@ == pool_token
        &&& new.config.pool_token@ == pool_token
        &&& new.config == (Config { pool_token: new.config.pool_token, ..old.config })
        &&& new.token == old.token
        &&& new.balances == old.balances
    }
}

/// Outcome of the owner's call that registers `decasino_token` as the stake token contract.
pub open spec fn update_decasino_token_post(old: Pool, new: Pool, caller: Seq<u8>, decasino_token: Seq<u8>, r: PoolResult) -> bool {
    if caller != old.config.owner@ {
        failed(old, new, r, PoolError::Unauthorized)
    } else {
        &&& r matches Ok(resp) && resp.messages@.len() == 0
        &&& r->Ok_0.event matches PoolEvent::DecasinoTokenUpdated { decasino_token: t } && t@ == decasino_token
        &&& new.config.decasino_token@ == decasino_token
        &&& new.config == (Config { decasino_token: new.config.decasino_token, ..old.config })
        &&& new.token == old.token
        &&& new.balances == old.balances
    }
}

/// Outcome of the owner's call that allows `game_contract` to report results.
pub open spec fn add_game_contract_post(old: Pool, new: Pool, caller: Seq<u8>, game_contract: Seq<u8>, r: PoolResult) -> bool {
    if caller != old.config.owner@ {
        failed(old, new, r, PoolError::Unauthorized)
    } else {
        &&& r matches Ok(resp) && resp.messages@.len() == 0
        &&& r->Ok_0.event matches PoolEvent::GameContractAdded { game_contract: g } && g@ == game_contract
        &&& if is_game_contract(old.config, game_contract) {
            new.config.game_contracts@ == old.config.game_contracts@
        } else {
            &&& new.config.game_contracts@.len() == old.config.game_contracts@.len() + 1
            &&& new.config.game_contracts@.drop_last() == old.config.game_contracts@
            &&& new.config.game_contracts@.last()@ == game_contract
        }
        &&& forall|x: Seq<u8>| #[trigger] is_game_contract(new.config, x)
            == (is_game_contract(old.config, x) || x == game_contract)
        &&& new.config == (Config { game_contracts: new.config.game_contracts, ..old.config })
        &&& new.token == old.token
        &&& new.balances == old.balances
    }
}

/// Outcome of the owner's call that withdraws `game_contract`'s right to report results.
pub open spec fn remove_game_contract_post(old: Pool, new: Pool, caller: Seq<u8>, game_contract: Seq<u8>, r: PoolResult) -> bool {
    if caller != old.config.owner@ {
        failed(old, new, r, PoolError::Unauthorized)
    } else {
        &&& r matches Ok(resp) && resp.messages@.len() == 0
        &&& r->Ok_0.event matches PoolEvent::GameContractRemoved { game_contract: g } && g@ == game_contract
        &&& views(new.config.game_contracts@) == drop_all(views(old.config.game_contracts@), game_contract)
        &&& !is_game_contract(old.config, game_contract) ==> views(new.config.game_contracts@) == views(
            old.config.game_contracts@,
        )
        &&& forall|x: Seq<u8>| #[trigger] is_game_contract(new.config, x)
            == (is_game_contract(old.config, x) && x != game_contract)
        &&& new.config == (Config { game_contracts: new.config.game_contracts, ..old.config })
        &&& new.token == old.token
        &&& new.balances == old.balances
    }
}

/// Deposit: the stake coin attached to the call buys newly minted shares for
/// the caller.
pub fn handle_deposit(pool: &mut Pool, info: &MessageInfo) -> (r: PoolResult)
    requires
        old(pool).wf(),
    ensures
        final(pool).wf(),
        deposit_post(*old(pool), *final(pool), *info, r),
{
    let amount = match native_amount(&info.sent_funds) {
        Some(a) => a,
        None => return Err(PoolError::InvalidZeroAmount),
    };
    if amount == 0 {
        return Err(PoolError::InvalidZeroAmount);
    }
    let supply = pool.token.total_supply;
    let reserve = pool.config.pool;
    let minted: u128 = if supply == 0 || reserve == 0 {
        amount
    } else {
        match supply.checked_mul(amount) {
            Some(p) => p / reserve,
            None => return Err(PoolError::Overflow),
        }
    };
    let new_reserve = match reserve.checked_add(amount) {
        Some(v) => v,
        None => return Err(PoolError::Overflow),
    };
    let new_supply = match supply.checked_add(minted) {
        Some(v) => v,
        None => return Err(PoolError::Overflow),
    };
    let held = read_balance(&pool.balances, &info.sender);
    proof {
        lemma_balance_within_total(pool.balances@, info.sender@);
    }
    proof {
        if supply > 0 {
            lemma_step_keeps_share_value(reserve as nat, supply as nat, PoolOp::Deposit(amount as nat));
        }
    }
    write_balance(&mut pool.balances, &info.sender, held + minted);
    pool.config.pool = new_reserve;
    pool.token.total_supply = new_supply;
    Ok(HandleResponse { messages: Vec::new(), event: PoolEvent::Minted { amount: minted } })
}

/// Burns `amount` of the shares `holder` holds and pays their part of the
/// reserve to `payee`.
fn redeem(pool: &mut Pool, holder: &Vec<u8>, payee: &Vec<u8>, amount: u128) -> (r: PoolResult)
    requires
        old(pool).wf(),
    ensures
        final(pool).wf(),
        withdraw_post(*old(pool), *final(pool), holder@, payee@, amount, r),
{
    if amount == 0 {
        return Err(PoolError::InvalidZeroAmount);
    }
    let held = read_balance(&pool.balances, holder);
    if amount > held {
        return Err(PoolError::InsufficientBalance);
    }
    proof {
        lemma_balance_within_total(pool.balances@, holder@);
    }
    let supply = pool.token.total_supply;
    let reserve = pool.config.pool;
    let paid = match reserve.checked_mul(amount) {
        Some(p) => p / supply,
        None => return Err(PoolError::Overflow),
    };
    proof {
        lemma_withdraw_within_reserve(supply as nat, reserve as nat, amount as nat);
    }
    proof {
        if supply > amount {
            lemma_step_keeps_share_value(reserve as nat, supply as nat, PoolOp::Withdraw(amount as nat));
        }
    }
    write_balance(&mut pool.balances, holder, held - amount);
    pool.config.pool = reserve - paid;
    pool.token.total_supply = supply - amount;
    let mut messages: Vec<Outbound> = Vec::new();
    messages.push(Outbound::BankSend { to_address: copy_bytes(payee), amount: paid });
    Ok(HandleResponse { messages, event: PoolEvent::Withdrawn { amount, send_amount: paid } })
}

/// Withdraw: burns `amount` of `account`'s shares and pays out their part of
/// the reserve to it.
pub fn handle_withdraw(pool: &mut Pool, account: &Vec<u8>, amount: u128) -> (r: PoolResult)
    requires
        old(pool).wf(),
    ensures
        final(pool).wf(),
        withdraw_post(*old(pool), *final(pool), account@, account@, amount, r),
{
    redeem(pool, account, account, amount)
}

/// The share token's notification that `cw20_msg.sender` hands shares back to
/// the pool: with a withdraw instruction from the registered share token,
/// `cw20_msg.amount` of that account's shares are burned and their part of
/// the reserve is paid to it.
pub fn handle_withdraw_cw20(pool: &mut Pool, info: &MessageInfo, cw20_msg: &Cw20ReceiveMsg) -> (r:
    PoolResult)
    requires
        old(pool).wf(),
    ensures
        final(pool).wf(),
        withdraw_cw20_post(*old(pool), *final(pool), info.sender@, *cw20_msg, r),
{
    match cw20_msg.msg {
        Some(Cw20HookMsg::Withdraw {  }) => {
            if !same_bytes(&info.sender, &pool.config.pool_token) {
                return Err(PoolError::Unauthorized);
            }
            redeem(pool, &cw20_msg.sender, &cw20_msg.sender, cw20_msg.amount)
        },
        None => Err(PoolError::MissingHookMsg),
    }
}

/// A registered game contract reports a settled bet: a win for the bettor is
/// paid from the reserve, a loss adds the stake to it.
pub fn handle_play(
    pool: &mut Pool,
    info: &MessageInfo,
    result: bool,
    bet_amount: u128,
    prize_amount: u128,
    winner: &Vec<u8>,
) -> (r: PoolResult)
    requires
        old(pool).wf(),
    ensures
        final(pool).wf(),
        play_post(*old(pool), *final(pool), info.sender@, result, bet_amount, prize_amount, winner@, r),
{
    if !contains_bytes(&pool.config.game_contracts, &info.sender) {
        return Err(PoolError::Unauthorized);
    }
    let mut messages: Vec<Outbound> = Vec::new();
    if result {
        if prize_amount > pool.config.pool {
            return Err(PoolError::Overflow);
        }
        pool.config.pool = pool.config.pool - prize_amount;
        messages.push(Outbound::BankSend { to_address: copy_bytes(winner), amount: prize_amount });
    } else {
        proof {
            let reserve = pool.config.pool as nat;
            let supply = pool.token.total_supply as nat;
            assert(reserve * supply <= (reserve + bet_amount) * supply) by (nonlinear_arith);
        }
        pool.config.pool = match pool.config.pool.checked_add(bet_amount) {
            Some(v) => v,
            None => return Err(PoolError::Overflow),
        };
    }
    let event = PoolEvent::PlayReported {
        won: result,
        bet_amount,
        prize_amount,
        winner: copy_bytes(winner),
    };
    Ok(HandleResponse { messages, event })
}

/// Moves `amount` shares from `from` to `to`.
fn move_shares(pool: &mut Pool, from: &Vec<u8>, to: &Vec<u8>, amount: u128) -> (r: Result<(), PoolError>)
    requires
        old(pool).wf(),
    ensures
        final(pool).wf(),
        transfer_state_post(*old(pool), *final(pool), from@, to@, amount, r),
{
    if amount == 0 {
        return Err(PoolError::InvalidZeroAmount);
    }
    let held = read_balance(&pool.balances, from);
    if amount > held {
        return Err(PoolError::InsufficientBalance);
    }
    let ghost before = pool.balances@;
    proof {
        lemma_balance_within_total(pool.balances@, from@);
    }
    write_balance(&mut pool.balances, from, held - amount);
    let ghost middle = pool.balances@;
    let got = read_balance(&pool.balances, to);
    proof {
        lemma_balance_within_total(pool.balances@, to@);
    }
    write_balance(&mut pool.balances, to, got + amount);
    assert forall|x: Seq<u8>| #[trigger] balance_of(pool.balances@, x) == moved_balance(before, from@, to@, amount as nat, x) by {
        assert(balance_of(middle, x) == balance_of(middle, x));
    }
    Ok(())
}

/// Transfer: the caller moves `amount` of its shares to `recipient`.
pub fn handle_transfer(pool: &mut Pool, info: &MessageInfo, recipient: &Vec<u8>, amount: u128) -> (r:
    PoolResult)
    requires
        old(pool).wf(),
    ensures
        final(pool).wf(),
        transfer_post(*old(pool), *final(pool), info.sender@, recipient@, amount, r),
{
    match move_shares(pool, &info.sender, recipient, amount) {
        Ok(()) => {
            let event = PoolEvent::Transferred {
                from: copy_bytes(&info.sender),
                to: copy_bytes(recipient),
                amount,
            };
            Ok(HandleResponse { messages: Vec::new(), event })
        },
        Err(e) => Err(e),
    }
}

/// Send: the caller moves `amount` of its shares to `contract` and notifies
/// it, passing `msg` along.
pub fn handle_send(
    pool: &mut Pool,
    info: &MessageInfo,
    contract: &Vec<u8>,
    amount: u128,
    msg: Option<Vec<u8>>,
) -> (r: PoolResult)
    requires
        old(pool).wf(),
    ensures
        final(pool).wf(),
        send_post(*old(pool), *final(pool), info.sender@, contract@, amount, payload_view(msg), r),
{
    match move_shares(pool, &info.sender, contract, amount) {
        Ok(()) => {
            let mut messages: Vec<Outbound> = Vec::new();
            messages.push(
                Outbound::Cw20Receive {
                    contract_addr: copy_bytes(contract),
                    sender: copy_bytes(&info.sender),
                    amount,
                    msg,
                },
            );
            let event = PoolEvent::Sent {
                from: copy_bytes(&info.sender),
                to: copy_bytes(contract),
                amount,
            };
            Ok(HandleResponse { messages, event })
        },
        Err(e) => Err(e),
    }
}

/// Owner only: hands ownership of the pool to `owner`.
pub fn handle_update_owner(pool: &mut Pool, info: &MessageInfo, owner: &Vec<u8>) -> (r: PoolResult)
    requires
        old(pool).wf(),
    ensures
        final(pool).wf(),
        update_owner_post(*old(pool), *final(pool), info.sender@, owner@, r),
{
    if !same_bytes(&pool.config.owner, &info.sender) {
        return Err(PoolError::Unauthorized);
    }
    pool.config.owner = copy_bytes(owner);
    Ok(HandleResponse { messages: Vec::new(), event: PoolEvent::OwnerUpdated { owner: copy_bytes(owner) } })
}

/// Owner only: registers `pool_token` as the share token contract.
pub fn handle_update_pool_token(pool: &mut Pool, info: &MessageInfo, pool_token: &Vec<u8>) -> (r:
    PoolResult)
    requires
        old(pool).wf(),
    ensures
        final(pool).wf(),
        update_pool_token_post(*old(pool), *final(pool), info.sender@, pool_token@, r),
{
    if !same_bytes(&pool.config.owner, &info.sender) {
        return Err(PoolError::Unauthorized);
    }
    pool.config.pool_token = copy_bytes(pool_token);
    Ok(HandleResponse { messages: Vec::new(), event: PoolEvent::PoolTokenUpdated { pool_token: copy_bytes(pool_token) } })
}

/// Owner only: registers `decasino_token` as the stake token contract.
pub fn handle_update_decasino_token(pool: &mut Pool, info: &MessageInfo, decasino_token: &Vec<u8>) -> (r:
    PoolResult)
    requires
        old(pool).wf(),
    ensures
        final(pool).wf(),
        update_decasino_token_post(*old(pool), *final(pool), info.sender@, decasino_token@, r),
{
    if !same_bytes(&pool.config.owner, &info.sender) {
        return Err(PoolError::Unauthorized);
    }
    pool.config.decasino_token = copy_bytes(decasino_token);
    Ok(HandleResponse {
        messages: Vec::new(),
        event: PoolEvent::DecasinoTokenUpdated { decasino_token: copy_bytes(decasino_token) },
    })
}

/// Owner only: allows `game_contract` to report results.
pub fn handle_add_game_contract(pool: &mut Pool, info: &MessageInfo, game_contract: &Vec<u8>) -> (r:
    PoolResult)
    requires
        old(pool).wf(),
    ensures
        final(pool).wf(),
        add_game_contract_post(*old(pool), *final(pool), info.sender@, game_contract@, r),
{
    if !same_bytes(&pool.config.owner, &info.sender) {
        return Err(PoolError::Unauthorized);
    }
    if !contains_bytes(&pool.config.game_contracts, game_contract) {
        let ghost before = pool.config.game_contracts@;
        pool.config.game_contracts.push(copy_bytes(game_contract));
        assert(pool.config.game_contracts@.drop_last() =~= before);
        assert forall|x: Seq<u8>| #[trigger] listed(pool.config.game_contracts@, x)
            == (listed(before, x) || x == game_contract@) by {
            if listed(before, x) {
                let i = choose|i: int| 0 <= i < before.len() && before[i]@ == x;
                assert(pool.config.game_contracts@[i] == before[i]);
            }
            if listed(pool.config.game_contracts@, x) && x != game_contract@ {
                let i = choose|i: int| 0 <= i < pool.config.game_contracts@.len() && pool.config.game_contracts@[i]@ == x;
                assert(before[i] == pool.config.game_contracts@[i]);
            }
            if x == game_contract@ {
                assert(pool.config.game_contracts@[before.len() as int]@ == x);
            }
        }
    }
    Ok(HandleResponse {
        messages: Vec::new(),
        event: PoolEvent::GameContractAdded { game_contract: copy_bytes(game_contract) },
    })
}

/// Owner only: withdraws `game_contract`'s right to report results.
pub fn handle_remove_game_contract(pool: &mut Pool, info: &MessageInfo, game_contract: &Vec<u8>) -> (r:
    PoolResult)
    requires
        old(pool).wf(),
    ensures
        final(pool).wf(),
        remove_game_contract_post(*old(pool), *final(pool), info.sender@, game_contract@, r),
{
    if !same_bytes(&pool.config.owner, &info.sender) {
        return Err(PoolError::Unauthorized);
    }
    pool.config.game_contracts = without_bytes(&pool.config.game_contracts, game_contract);
    Ok(HandleResponse {
        messages: Vec::new(),
        event: PoolEvent::GameContractRemoved { game_contract: copy_bytes(game_contract) },
    })
}

/// The sum of the amounts listed for account `a`.
pub open spec fn listed_amount(s: Seq<Balance>, a: Seq<u8>) -> nat
    decreases s.len(),
{
    if s.len() == 0 {
        0
    } else if s.last().address@ == a {
        listed_amount(s.drop_last(), a) + s.last().amount as nat
    } else {
        listed_amount(s.drop_last(), a)
    }
}

/// Name of the share token.
pub const SHARE_NAME: &'static str = "cpool";

/// Ticker symbol of the share token.
pub const SHARE_SYMBOL: &'static str = "cool";

/// Decimal places of the share token.
pub const SHARE_DECIMALS: u8 = 18;

/// The opening share ledger: each listed amount is credited to its account.
pub fn create_accounts(accounts: &Vec<Balance>) -> (r: Result<Vec<Balance>, PoolError>)
    ensures
        sum_amounts(accounts@) > u128::MAX ==> r == Err::<Vec<Balance>, PoolError>(PoolError::Overflow),
        sum_amounts(accounts@) <= u128::MAX ==> (r matches Ok(b) && {
            &&& unique_accounts(b@)
            &&& sum_amounts(b@) == sum_amounts(accounts@)
            &&& forall|x: Seq<u8>| #[trigger] balance_of(b@, x) == listed_amount(accounts@, x)
        }),
{
    let mut ledger: Vec<Balance> = Vec::new();
    let mut total: u128 = 0;
    let mut i: usize = 0;
    while i < accounts.len()
        invariant
            i <= accounts@.len(),
            unique_accounts(ledger@),
            sum_amounts(ledger@) == total,
            total == sum_amounts(accounts@.subrange(0, i as int)),
            forall|x: Seq<u8>| #[trigger] balance_of(ledger@, x) == listed_amount(accounts@.subrange(0, i as int), x),
        decreases accounts@.len() - i,
    {
        let row = &accounts[i];
        let ghost prefix = accounts@.subrange(0, i + 1);
        assert(prefix.drop_last() =~= accounts@.subrange(0, i as int));
        let new_total = match total.checked_add(row.amount) {
            Some(t) => t,
            None => {
                proof {
                    lemma_prefix_sum_le(accounts@, i + 1);
                }
                return Err(PoolError::Overflow);
            },
        };
        let held = read_balance(&ledger, &row.address);
        proof {
            lemma_balance_within_total(ledger@, row.address@);
        }
        write_balance(&mut ledger, &row.address, held + row.amount);
        total = new_total;
        i = i + 1;
    }
    assert(accounts@.subrange(0, accounts@.len() as int) =~= accounts@);
    Ok(ledger)
}

/// A new pool owned by the caller, with an empty reserve and the listed
/// opening share balances.
pub fn init(info: &MessageInfo, initial_balances: &Vec<Balance>) -> (r: Result<Pool, PoolError>)
    ensures
        sum_amounts(initial_balances@) > u128::MAX ==> r == Err::<Pool, PoolError>(PoolError::Overflow),
        sum_amounts(initial_balances@) <= u128::MAX ==> (r matches Ok(pool) && {
            &&& pool.wf()
            &&& pool.config.owner@ == info.sender@
            &&& pool.config.pool == 0
            &&& pool.config.pool_token@.len() == 0
            &&& pool.config.decasino_token@.len() == 0
            &&& pool.config.game_contracts@.len() == 0
            &&& pool.token.name@ == SHARE_NAME@
            &&& pool.token.symbol@ == SHARE_SYMBOL@
            &&& pool.token.decimals == SHARE_DECIMALS
            &&& pool.token.total_supply == sum_amounts(initial_balances@)
            &&& forall|x: Seq<u8>| #[trigger] pool.shares_of(x) == listed_amount(initial_balances@, x)
        }),
{
    let balances = match create_accounts(initial_balances) {
        Ok(b) => b,
        Err(e) => return Err(e),
    };
    let total_supply = match total_amount(&balances) {
        Some(t) => t,
        None => return Err(PoolError::Overflow),
    };
    let config = Config {
        owner: copy_bytes(&info.sender),
        pool_token: Vec::new(),
        decasino_token: Vec::new(),
        game_contracts: Vec::new(),
        pool: 0,
    };
    let name = SHARE_NAME.to_string();
    let symbol = SHARE_SYMBOL.to_string();
    proof {
        broadcast use vstd::string::to_string_from_display_ensures_for_str;
    }
    let token = TokenInfo { name, symbol, decimals: SHARE_DECIMALS, total_supply };
    Ok(Pool { config, token, balances })
}

/// The owner, reserve and registered game contracts.
pub fn query_config(pool: &Pool) -> (r: HouseResponse)
    ensures
        r.owner@ == pool.config.owner@,
        r.pool == pool.config.pool,
        r.game_contracts@.len() == pool.config.game_contracts@.len(),
        forall|i: int| 0 <= i < r.game_contracts@.len() ==> #[trigger] r.game_contracts@[i]@ == pool.config.game_contracts@[i]@,
{
    let mut game_contracts: Vec<Vec<u8>> = Vec::new();
    let mut i: usize = 0;
    while i < pool.config.game_contracts.len()
        invariant
            i <= pool.config.game_contracts@.len(),
            game_contracts@.len() == i,
            forall|j: int| 0 <= j < i ==> #[trigger] game_contracts@[j]@ == pool.config.game_contracts@[j]@,
        decreases pool.config.game_contracts@.len() - i,
    {
        game_contracts.push(copy_bytes(&pool.config.game_contracts[i]));
        i = i + 1;
    }
    HouseResponse { owner: copy_bytes(&pool.config.owner), pool: pool.config.pool, game_contracts }
}

/// The share balance of `address`; zero for an account that holds none.
pub fn query_balance(pool: &Pool, address: &Vec<u8>) -> (r: u128)
    requires
        pool.wf(),
    ensures
        r == pool.shares_of(address@),
{
    read_balance(&pool.balances, address)
}

/// The share token's metadata and total supply.
pub fn query_token_info(pool: &Pool) -> (r: TokenInfo)
    ensures
        r.name@ == pool.token.name@,
        r.symbol@ == pool.token.symbol@,
        r.decimals == pool.token.decimals,
        r.total_supply == pool.token.total_supply,
{
    TokenInfo {
        name: pool.token.name.clone(),
        symbol: pool.token.symbol.clone(),
        decimals: pool.token.decimals,
        total_supply: pool.token.total_supply,
    }
}

/// Shares per million units of reserve, rounded down; one while the reserve
/// is empty.
pub open spec fn token_ratio(supply: nat, reserve: nat) -> nat {
    if reserve == 0 {
        1
    } else {
        1_000_000 * supply / reserve
    }
}

/// The current share-to-reserve ratio, scaled by a million; fails when the
/// scaled supply leaves 128 bits.
pub fn query_token_ratio(pool: &Pool) -> (r: Result<u128, PoolError>)
    ensures
        pool.config.pool != 0 && 1_000_000 * pool.token.total_supply > u128::MAX ==> r
            == Err::<u128, PoolError>(PoolError::Overflow),
        !(pool.config.pool != 0 && 1_000_000 * pool.token.total_supply > u128::MAX) ==> r
            == Ok::<u128, PoolError>(token_ratio(pool.token.total_supply as nat, pool.config.pool as nat) as u128),
{
    if pool.config.pool == 0 {
        return Ok(1);
    }
    match 1_000_000u128.checked_mul(pool.token.total_supply) {
        Some(p) => Ok(p / pool.config.pool),
        None => Err(PoolError::Overflow),
    }
}

/// A command to the pool.
#[derive(Clone, Debug, PartialEq, Eq)]
pub enum HandleMsg {
    UpdateOwner { owner: Vec<u8> },
    UpdatePoolTokenContract { pool_token: Vec<u8> },
    UpdateDecasinoTokenContract { decasino_token: Vec<u8> },
    AddGameContract { game_contract: Vec<u8> },
    RemoveGameContract { game_contract: Vec<u8> },
    Deposit {},
    /// The share token's notification of shares transferred to the pool.
    Receive(Cw20ReceiveMsg),
    Play { result: bool, bet_amount: u128, prize_amount: u128, winner: Vec<u8> },
    Transfer { recipient: Vec<u8>, amount: u128 },
    Send { contract: Vec<u8>, amount: u128, msg: Option<Vec<u8>> },
}

/// Outcome of command `msg` from the caller of `info`.
pub open spec fn handle_post(old: Pool, new: Pool, info: MessageInfo, msg: HandleMsg, r: PoolResult) -> bool {
    match msg {
        HandleMsg::UpdateOwner { owner } => update_owner_post(old, new, info.sender@, owner@, r),
        HandleMsg::UpdatePoolTokenContract { pool_token } => update_pool_token_post(
            old,
            new,
            info.sender@,
            pool_token@,
            r,
        ),
        HandleMsg::UpdateDecasinoTokenContract { decasino_token } => update_decasino_token_post(
            old,
            new,
            info.sender@,
            decasino_token@,
            r,
        ),
        HandleMsg::AddGameContract { game_contract } => add_game_contract_post(
            old,
            new,
            info.sender@,
            game_contract@,
            r,
        ),
        HandleMsg::RemoveGameContract { game_contract } => remove_game_contract_post(
            old,
            new,
            info.sender@,
            game_contract@,
            r,
        ),
        HandleMsg::Deposit {  } => deposit_post(old, new, info, r),
        HandleMsg::Receive(m) => withdraw_cw20_post(old, new, info.sender@, m, r),
        HandleMsg::Play { result, bet_amount, prize_amount, winner } => play_post(
            old,
            new,
            info.sender@,
            result,
            bet_amount,
            prize_amount,
            winner@,
            r,
        ),
        HandleMsg::Transfer { recipient, amount } => transfer_post(
            old,
            new,
            info.sender@,
            recipient@,
            amount,
            r,
        ),
        HandleMsg::Send { contract, amount, msg } => send_post(
            old,
            new,
            info.sender@,
            contract@,
            amount,
            payload_view(msg),
            r,
        ),
    }
}

/// Runs command `msg` for the caller of `info`.
pub fn handle(pool: &mut Pool, info: &MessageInfo, msg: HandleMsg) -> (r: PoolResult)
    requires
        old(pool).wf(),
    ensures
        final(pool).wf(),
        handle_post(*old(pool), *final(pool), *info, msg, r),
{
    match msg {
        HandleMsg::UpdateOwner { owner } => handle_update_owner(pool, info, &owner),
        HandleMsg::UpdatePoolTokenContract { pool_token } => handle_update_pool_token(
            pool,
            info,
            &pool_token,
        ),
        HandleMsg::UpdateDecasinoTokenContract { decasino_token } => handle_update_decasino_token(
            pool,
            info,
            &decasino_token,
        ),
        HandleMsg::AddGameContract { game_contract } => handle_add_game_contract(
            pool,
            info,
            &game_contract,
        ),
        HandleMsg::RemoveGameContract { game_contract } => handle_remove_game_contract(
            pool,
            info,
            &game_contract,
        ),
        HandleMsg::Deposit {  } => handle_deposit(pool, info),
        HandleMsg::Receive(m) => handle_withdraw_cw20(pool, info, &m),
        HandleMsg::Play { result, bet_amount, prize_amount, winner } => handle_play(
            pool,
            info,
            result,
            bet_amount,
            prize_amount,
            &winner,
        ),
        HandleMsg::Transfer { recipient, amount } => handle_transfer(pool, info, &recipient, amount),
        HandleMsg::Send { contract, amount, msg } => handle_send(pool, info, &contract, amount, msg),
    }
}

} // verus!
