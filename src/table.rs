//! The dice table: configuration, the single-slot ledger of open bets, bet
//! placement and resolution.

use crate::bytes::{copy_bytes, same_bytes};
use crate::entropy::{derive_outcome, outcome_for};
use crate::error::ContractError;
use crate::msg::{
    attached_native, native_amount, BlockInfo, HandleResponse, MessageInfo, Outbound, STAKE_DENOM,
};
use crate::payout::{calc_payout, payout_fits, payout_of, wins};
use vstd::prelude::*;

verus! {

/// Who runs the table and which pool it settles with.
#[derive(Clone, Debug, PartialEq, Eq)]
pub struct Config {
    pub owner: Vec<u8>,
    /// The pool contract that results are reported to.
    pub house_contract: Vec<u8>,
    pub name: String,
    pub description: String,
}

/// The table's betting parameters.
#[derive(Clone, Copy, Debug, PartialEq, Eq)]
pub struct Params {
    pub min_bet_amount: u128,
    pub max_bet_amount: u128,
    /// Cap on the payout multiplier exposure.
    pub max_bet_rate: u8,
    /// House edge, taken off the million-unit payout scale.
    pub house_fee: u64,
}

/// Running totals of the table.
#[derive(Clone, Copy, Debug, PartialEq, Eq)]
pub struct State {
    pub cumulative_bet_amount: u128,
}

/// An open wager.
#[derive(Clone, Debug, PartialEq, Eq)]
pub struct Bet {
    pub user: Vec<u8>,
    pub bet_amount: u128,
    pub prediction_number: u8,
    /// The drawn outcome; zero while the bet is open.
    pub lucky_number: u8,
    /// `true` bets on "over", `false` on "under".
    pub position: bool,
    pub result: bool,
    /// The payout a win brings, fixed when the bet is placed.
    pub payout: u128,
    pub time: u64,
    pub block_height: u64,
}

/// The whole state of a table.
#[derive(Clone, Debug, PartialEq, Eq)]
pub struct Table {
    pub config: Config,
    pub params: Params,
    pub state: State,
    pub bets: Vec<Bet>,
}

/// The table's answer to a configuration query.
#[derive(Clone, Debug, PartialEq, Eq)]
pub struct ConfigResponse {
    pub owner: Vec<u8>,
    pub house_contract: Vec<u8>,
    pub name: String,
    pub description: String,
    pub min_bet_amount: u128,
    pub max_bet_amount: u128,
    pub max_bet_rate: u8,
    pub house_fee: u64,
    pub bet_amount_sum: u128,
}

/// What a successful table call did.
#[derive(Clone, Copy, Debug, PartialEq, Eq)]
pub enum TableEvent {
    ConfigUpdated,
    BetPlaced { bet_amount: u128, payout: u128 },
    Refunded { bet_amount: u128 },
    Won { payout: u128 },
    Lost { bet_amount: u128 },
}

/// The result type of every table handler.
pub type TableResult = Result<HandleResponse<TableEvent>, ContractError>;

/// The open bet of `a`, if any.
pub open spec fn bet_of(s: Seq<Bet>, a: Seq<u8>) -> Option<Bet>
    decreases s.len(),
{
    if s.len() == 0 {
        None
    } else if s.last().user@ == a {
        Some(s.last())
    } else {
        bet_of(s.drop_last(), a)
    }
}

/// No bettor has two open bets.
pub open spec fn unique_bettors(s: Seq<Bet>) -> bool {
    forall|i: int, j: int| 0 <= i < j < s.len() ==> s[i].user@ != s[j].user@
}

impl Table {
    /// Each bettor has at most one open bet.
    pub open spec fn wf(&self) -> bool {
        unique_bettors(self.bets@)
    }

    /// Whether a table, as loaded from storage, is well formed.
    pub fn is_consistent(&self) -> (r: bool)
        ensures
            r == self.wf(),
    {
        let s = &self.bets;
        let mut i: usize = 0;
        while i < s.len()
            invariant
                s@ == self.bets@,
                i <= s@.len(),
                forall|p: int, q: int| 0 <= p < q < s@.len() && p < i ==> s@[p].user@ != s@[q].user@,
            decreases s@.len() - i,
        {
            let mut j: usize = i + 1;
            while j < s.len()
                invariant
                    s@ == self.bets@,
                    i < s@.len(),
                    i + 1 <= j <= s@.len(),
                    forall|p: int, q: int| 0 <= p < q < s@.len() && p < i ==> s@[p].user@ != s@[q].user@,
                    forall|q: int| i < q < j ==> s@[i as int].user@ != s@[q].user@,
                decreases s@.len() - j,
            {
                if same_bytes(&s[i].user, &s[j].user) {
                    assert(!unique_bettors(self.bets@)) by {
                        assert(self.bets@[i as int].user@ == self.bets@[j as int].user@);
                    }
                    return false;
                }
                j = j + 1;
            }
            i = i + 1;
        }
        true
    }

    /// The open bet of `a`, if any.
    pub open spec fn open_bet(&self, a: Seq<u8>) -> Option<Bet> {
        bet_of(self.bets@, a)
    }
}

proof fn lemma_bet_at(s: Seq<Bet>, i: int)
    requires
        unique_bettors(s),
        0 <= i < s.len(),
    ensures
        bet_of(s, s[i].user@) == Some(s[i]),
    decreases s.len(),
{
    if i < s.len() - 1 {
        assert(s.drop_last()[i] == s[i]);
        lemma_bet_at(s.drop_last(), i);
    }
}

proof fn lemma_bet_absent(s: Seq<Bet>, a: Seq<u8>)
    requires
        forall|i: int| 0 <= i < s.len() ==> s[i].user@ != a,
    ensures
        bet_of(s, a) is None,
    decreases s.len(),
{
    if s.len() > 0 {
        lemma_bet_absent(s.drop_last(), a);
    }
}

proof fn lemma_bet_removed(s: Seq<Bet>, i: int)
    requires
        unique_bettors(s),
        0 <= i < s.len(),
    ensures
        unique_bettors(s.remove(i)),
        forall|x: Seq<u8>|
            #[trigger] bet_of(s.remove(i), x) == if x == s[i].user@ {
                None
            } else {
                bet_of(s, x)
            },
    decreases s.len(),
{
    let t = s.remove(i);
    assert forall|p: int, q: int| 0 <= p < q < t.len() implies t[p].user@ != t[q].user@ by {
        let p0 = if p < i { p } else { p + 1 };
        let q0 = if q < i { q } else { q + 1 };
        assert(t[p] == s[p0] && t[q] == s[q0]);
    }
    if i == s.len() - 1 {
        assert(t =~= s.drop_last());
        assert forall|x: Seq<u8>| #[trigger] bet_of(t, x) == if x == s[i].user@ {
            None
        } else {
            bet_of(s, x)
        } by {
            if x == s[i].user@ {
                assert forall|k: int| 0 <= k < t.len() implies t[k].user@ != x by {
                    assert(t[k] == s[k]);
                }
                lemma_bet_absent(t, x);
            }
        }
    } else {
        let d = s.drop_last();
        assert(t.drop_last() =~= d.remove(i));
        assert(t.last() == s.last());
        assert(d[i] == s[i]);
        lemma_bet_removed(d, i);
        assert(s[i].user@ != s[s.len() - 1].user@);
        assert forall|x: Seq<u8>| #[trigger] bet_of(t, x) == if x == s[i].user@ {
            None
        } else {
            bet_of(s, x)
        } by {
            assert(bet_of(t.drop_last(), x) == bet_of(d.remove(i), x));
            assert(s.drop_last() == d);
        }
    }
}

/// The index of `a`'s open bet, if there is one.
fn find_bet(s: &Vec<Bet>, a: &Vec<u8>) -> (r: Option<usize>)
    requires
        unique_bettors(s@),
    ensures
        match r {
            Some(i) => i < s@.len() && s@[i as int].user@ == a@ && bet_of(s@, a@) == Some(s@[i as int]),
            None => bet_of(s@, a@) is None && forall|i: int| 0 <= i < s@.len() ==> s@[i].user@ != a@,
        },
{
    let mut i: usize = 0;
    while i < s.len()
        invariant
            i <= s@.len(),
            unique_bettors(s@),
            forall|j: int| 0 <= j < i ==> s@[j].user@ != a@,
        decreases s@.len() - i,
    {
        if same_bytes(&s[i].user, a) {
            proof {
                lemma_bet_at(s@, i as int);
            }
            return Some(i);
        }
        i = i + 1;
    }
    proof {
        lemma_bet_absent(s@, a@);
    }
    None
}

/// Whether `n` may be chosen for the direction `over`: `2..=58` above,
/// `1..=57` below.
pub open spec fn valid_prediction(n: u8, over: bool) -> bool {
    if over {
        2 <= n <= 58
    } else {
        1 <= n <= 57
    }
}

/// `b` is the bet placed by `bettor` in `block` with these terms.
pub open spec fn is_placed_bet(
    b: Bet,
    bettor: Seq<u8>,
    block: BlockInfo,
    stake: u128,
    chosen: u8,
    over: bool,
    payout: nat,
) -> bool {
    &&& b.user@ == bettor
    &&& b.bet_amount == stake
    &&& b.prediction_number == chosen
    &&& b.position == over
    &&& b.payout == payout
    &&& b.block_height == block.height
    &&& b.time == block.time
    &&& b.lucky_number == 0
    &&& !b.result
}

/// Outcome of `info`'s caller placing a bet of `bet_amount` on `prediction_number`.
pub open spec fn bet_post(
    old: Table,
    new: Table,
    info: MessageInfo,
    block: BlockInfo,
    bet_amount: u128,
    prediction_number: u8,
    position: bool,
    r: TableResult,
) -> bool {
    let attached = attached_native(info.sent_funds@, STAKE_DENOM@);
    let payout = payout_of(prediction_number as nat, bet_amount as nat, old.params.house_fee as nat);
    let sum = old.state.cumulative_bet_amount + bet_amount;
    if !valid_prediction(prediction_number, position) {
        table_failed(old, new, r, ContractError::InvalidPrediction)
    } else if attached is None || attached->Some_0 == 0 {
        table_failed(old, new, r, ContractError::EmptyStake)
    } else if attached->Some_0 != bet_amount {
        table_failed(old, new, r, ContractError::StakeMismatch)
    } else if old.open_bet(info.sender@) is Some {
        table_failed(old, new, r, ContractError::BetAlreadyOpen)
    } else if !payout_fits(prediction_number as nat, bet_amount as nat, old.params.house_fee as nat) || sum
        > u128::MAX {
        table_failed(old, new, r, ContractError::Overflow)
    } else {
        &&& match r {
            Ok(resp) => resp.messages@.len() == 0 && resp.event == (TableEvent::BetPlaced {
                bet_amount,
                payout: payout as u128,
            }),
            Err(_) => false,
        }
        &&& new.config == old.config
        &&& new.params == old.params
        &&& new.state.cumulative_bet_amount == sum
        &&& new.bets@.len() == old.bets@.len() + 1
        &&& new.bets@.drop_last() == old.bets@
        &&& is_placed_bet(
            new.bets@.last(),
            info.sender@,
            block,
            bet_amount,
            prediction_number,
            position,
            payout,
        )
    }
}

/// `r` failed with `e` and the table is as it was.
pub open spec fn table_failed(old: Table, new: Table, r: TableResult, e: ContractError) -> bool {
    r == Err::<HandleResponse<TableEvent>, ContractError>(e) && new == old
}

/// Places a bet of `bet_amount`, attached as the stake coin, that the outcome
/// lands over (`position`) or under `prediction_number`. The payout is fixed
/// now, with the current house fee.
pub fn handle_bet(
    table: &mut Table,
    info: &MessageInfo,
    block: &BlockInfo,
    bet_amount: u128,
    prediction_number: u8,
    position: bool,
) -> (r: TableResult)
    requires
        old(table).wf(),
    ensures
        final(table).wf(),
        bet_post(*old(table), *final(table), *info, *block, bet_amount, prediction_number, position, r),
{
    if position {
        if prediction_number < 2 || prediction_number > 58 {
            return Err(ContractError::InvalidPrediction);
        }
    } else {
        if prediction_number < 1 || prediction_number > 57 {
            return Err(ContractError::InvalidPrediction);
        }
    }
    let stake = match native_amount(&info.sent_funds) {
        Some(a) => a,
        None => return Err(ContractError::EmptyStake),
    };
    if stake == 0 {
        return Err(ContractError::EmptyStake);
    }
    if stake != bet_amount {
        return Err(ContractError::StakeMismatch);
    }
    match find_bet(&table.bets, &info.sender) {
        Some(_) => return Err(ContractError::BetAlreadyOpen),
        None => {},
    }
    let payout = match calc_payout(prediction_number, position, bet_amount, table.params.house_fee) {
        Ok(p) => p,
        Err(e) => return Err(e),
    };
    let sum = match table.state.cumulative_bet_amount.checked_add(bet_amount) {
        Some(s) => s,
        None => return Err(ContractError::Overflow),
    };
    let bet = Bet {
        user: copy_bytes(&info.sender),
        bet_amount,
        prediction_number,
        lucky_number: 0,
        position,
        result: false,
        payout,
        time: block.time,
        block_height: block.height,
    };
    let ghost before = table.bets@;
    table.bets.push(bet);
    assert(table.bets@.drop_last() =~= before);
    assert forall|p: int, q: int| 0 <= p < q < table.bets@.len() implies table.bets@[p].user@
        != table.bets@[q].user@ by {
        if q < before.len() {
            assert(before[p].user@ != before[q].user@);
        } else {
            assert(table.bets@[p] == before[p]);
        }
    }
    table.state.cumulative_bet_amount = sum;
    Ok(HandleResponse { messages: Vec::new(), event: TableEvent::BetPlaced { bet_amount, payout } })
}

/// Whether bet `b` wins with outcome `lucky_number`.
pub fn check_result(game: &Bet, lucky_number: u64) -> (r: bool)
    ensures
        r == wins(game.position, game.prediction_number as nat, lucky_number as nat),
{
    if game.position {
        lucky_number > game.prediction_number as u64
    } else {
        lucky_number < game.prediction_number as u64
    }
}

/// `m` reports a settled bet to `house` with these values, forwarding the stake.
pub open spec fn is_report(
    m: Outbound,
    house: Seq<u8>,
    won: bool,
    bet_amount: u128,
    prize_amount: u128,
    winner: Seq<u8>,
) -> bool {
    match m {
        Outbound::ReportResult {
            contract_addr,
            won: w,
            bet_amount: b,
            prize_amount: p,
            winner: who,
            send,
        } => contract_addr@ == house && w == won && b == bet_amount && p == prize_amount && who@
            == winner && send == bet_amount,
        _ => false,
    }
}

/// `m` refunds `amount` of the stake coin to `to`.
pub open spec fn is_refund(m: Outbound, to: Seq<u8>, amount: u128) -> bool {
    match m {
        Outbound::BankSend { to_address, amount: a } => to_address@ == to && a == amount,
        _ => false,
    }
}

/// How resolving `bettor`'s bet in a block at `height` goes.
pub enum Resolution {
    /// No open bet.
    NoGame,
    /// Placed in this block or later: too early.
    NoResult,
    /// The one-block window was missed: the stake goes back.
    Refund,
    /// Exactly one block later: the outcome is drawn and reported.
    Settle,
}

/// How resolving `bettor`'s bet in a block at `height` goes.
pub open spec fn resolution(bets: Seq<Bet>, bettor: Seq<u8>, height: u64) -> Resolution {
    match bet_of(bets, bettor) {
        None => Resolution::NoGame,
        Some(b) => if height <= b.block_height {
            Resolution::NoResult
        } else if height - b.block_height != 1 {
            Resolution::Refund
        } else {
            Resolution::Settle
        },
    }
}

/// The table after the bet of `bettor` is removed: everything else as it was.
pub open spec fn bet_removed(old: Table, new: Table, bettor: Seq<u8>) -> bool {
    &&& new.config == old.config
    &&& new.params == old.params
    &&& new.state == old.state
    &&& forall|x: Seq<u8>| #[trigger] new.open_bet(x) == if x == bettor {
        None
    } else {
        old.open_bet(x)
    }
}

/// Outcome of `info`'s caller asking for its bet to be resolved in `block`.
pub open spec fn result_post(old: Table, new: Table, info: MessageInfo, block: BlockInfo, r: TableResult) -> bool {
    let bettor = info.sender@;
    match resolution(old.bets@, bettor, block.height) {
        Resolution::NoGame => table_failed(old, new, r, ContractError::NoGame),
        Resolution::NoResult => table_failed(old, new, r, ContractError::NoResult),
        Resolution::Refund => {
            let b = old.open_bet(bettor)->Some_0;
            &&& bet_removed(old, new, bettor)
            &&& match r {
                Ok(resp) => resp.messages@.len() == 1 && is_refund(resp.messages@[0], bettor, b.bet_amount)
                    && resp.event == (TableEvent::Refunded { bet_amount: b.bet_amount }),
                Err(_) => false,
            }
        },
        Resolution::Settle => {
            let b = old.open_bet(bettor)->Some_0;
            let won = wins(b.position, b.prediction_number as nat, outcome_for(bettor, block));
            &&& bet_removed(old, new, bettor)
            &&& match r {
                Ok(resp) => resp.messages@.len() == 1 && is_report(
                    resp.messages@[0],
                    old.config.house_contract@,
                    won,
                    b.bet_amount,
                    b.payout,
                    bettor,
                ) && resp.event == if won {
                    TableEvent::Won { payout: b.payout }
                } else {
                    TableEvent::Lost { bet_amount: b.bet_amount }
                },
                Err(_) => false,
            }
        },
    }
}

/// Resolves the caller's open bet: too early fails, a missed window refunds
/// the stake, and exactly one block after placement the outcome is drawn
/// from this block's entropy and reported to the pool.
pub fn handle_result(table: &mut Table, info: &MessageInfo, block: &BlockInfo) -> (r: TableResult)
    requires
        old(table).wf(),
    ensures
        final(table).wf(),
        result_post(*old(table), *final(table), *info, *block, r),
{
    let i = match find_bet(&table.bets, &info.sender) {
        Some(i) => i,
        None => return Err(ContractError::NoGame),
    };
    let placed = table.bets[i].block_height;
    if placed >= block.height {
        return Err(ContractError::NoResult);
    }
    let bet_amount = table.bets[i].bet_amount;
    let payout = table.bets[i].payout;
    proof {
        lemma_bet_removed(table.bets@, i as int);
    }
    if block.height - placed != 1 {
        table.bets.remove(i);
        let mut messages: Vec<Outbound> = Vec::new();
        messages.push(Outbound::BankSend { to_address: copy_bytes(&info.sender), amount: bet_amount });
        return Ok(HandleResponse { messages, event: TableEvent::Refunded { bet_amount } });
    }
    let lucky_number = derive_outcome(&info.sender, block);
    let won = check_result(&table.bets[i], lucky_number as u64);
    table.bets.remove(i);
    let mut messages: Vec<Outbound> = Vec::new();
    messages.push(
        Outbound::ReportResult {
            contract_addr: copy_bytes(&table.config.house_contract),
            won,
            bet_amount,
            prize_amount: payout,
            winner: copy_bytes(&info.sender),
            send: bet_amount,
        },
    );
    let event = if won {
        TableEvent::Won { payout }
    } else {
        TableEvent::Lost { bet_amount }
    };
    Ok(HandleResponse { messages, event })
}

/// Outcome of an owner-only change whose successful effect is `changed`.
pub open spec fn update_post(old: Table, new: Table, caller: Seq<u8>, r: TableResult, changed: bool) -> bool {
    if caller != old.config.owner@ {
        table_failed(old, new, r, ContractError::Unauthorized)
    } else {
        &&& changed
        &&& match r {
            Ok(resp) => resp.messages@.len() == 0 && resp.event == TableEvent::ConfigUpdated,
            Err(_) => false,
        }
    }
}

/// Owner only: hands ownership of the table to `owner`.
pub fn handle_update_owner(table: &mut Table, info: &MessageInfo, owner: &Vec<u8>) -> (r: TableResult)
    requires
        old(table).wf(),
    ensures
        final(table).wf(),
        update_post(
            *old(table),
            *final(table),
            info.sender@,
            r,
            (final(table).config.owner@ == owner@ && *final(table) == (Table { config: Config { owner: final(table).config.owner, ..old(table).config }, ..*old(table) })),
        ),
{
    if !same_bytes(&table.config.owner, &info.sender) {
        return Err(ContractError::Unauthorized);
    }
    table.config.owner = copy_bytes(owner);
    Ok(HandleResponse { messages: Vec::new(), event: TableEvent::ConfigUpdated })
}

/// Owner only: sets the pool that results are reported to.
pub fn handle_update_house_contract(table: &mut Table, info: &MessageInfo, house_contract: &Vec<u8>) -> (r: TableResult)
    requires
        old(table).wf(),
    ensures
        final(table).wf(),
        update_post(
            *old(table),
            *final(table),
            info.sender@,
            r,
            (final(table).config.house_contract@ == house_contract@ && *final(table) == (Table { config: Config { house_contract: final(table).config.house_contract, ..old(table).config }, ..*old(table) })),
        ),
{
    if !same_bytes(&table.config.owner, &info.sender) {
        return Err(ContractError::Unauthorized);
    }
    table.config.house_contract = copy_bytes(house_contract);
    Ok(HandleResponse { messages: Vec::new(), event: TableEvent::ConfigUpdated })
}

/// Owner only: renames the table.
pub fn handle_update_name(table: &mut Table, info: &MessageInfo, name: String) -> (r: TableResult)
    requires
        old(table).wf(),
    ensures
        final(table).wf(),
        update_post(
            *old(table),
            *final(table),
            info.sender@,
            r,
            (final(table).config.name@ == name@ && *final(table) == (Table { config: Config { name: final(table).config.name, ..old(table).config }, ..*old(table) })),
        ),
{
    if !same_bytes(&table.config.owner, &info.sender) {
        return Err(ContractError::Unauthorized);
    }
    table.config.name = name;
    Ok(HandleResponse { messages: Vec::new(), event: TableEvent::ConfigUpdated })
}

/// Owner only: sets the table's description.
pub fn handle_update_description(table: &mut Table, info: &MessageInfo, description: String) -> (r: TableResult)
    requires
        old(table).wf(),
    ensures
        final(table).wf(),
        update_post(
            *old(table),
            *final(table),
            info.sender@,
            r,
            (final(table).config.description@ == description@ && *final(table) == (Table { config: Config { description: final(table).config.description, ..old(table).config }, ..*old(table) })),
        ),
{
    if !same_bytes(&table.config.owner, &info.sender) {
        return Err(ContractError::Unauthorized);
    }
    table.config.description = description;
    Ok(HandleResponse { messages: Vec::new(), event: TableEvent::ConfigUpdated })
}

/// Owner only: sets the minimum bet.
pub fn handle_update_min_bet_amount(table: &mut Table, info: &MessageInfo, amount: u128) -> (r: TableResult)
    requires
        old(table).wf(),
    ensures
        final(table).wf(),
        update_post(
            *old(table),
            *final(table),
            info.sender@,
            r,
            (*final(table) == (Table { params: Params { min_bet_amount: amount, ..old(table).params }, ..*old(table) })),
        ),
{
    if !same_bytes(&table.config.owner, &info.sender) {
        return Err(ContractError::Unauthorized);
    }
    table.params.min_bet_amount = amount;
    Ok(HandleResponse { messages: Vec::new(), event: TableEvent::ConfigUpdated })
}

/// Owner only: sets the maximum bet.
pub fn handle_update_max_bet_amount(table: &mut Table, info: &MessageInfo, amount: u128) -> (r: TableResult)
    requires
        old(table).wf(),
    ensures
        final(table).wf(),
        update_post(
            *old(table),
            *final(table),
            info.sender@,
            r,
            (*final(table) == (Table { params: Params { max_bet_amount: amount, ..old(table).params }, ..*old(table) })),
        ),
{
    if !same_bytes(&table.config.owner, &info.sender) {
        return Err(ContractError::Unauthorized);
    }
    table.params.max_bet_amount = amount;
    Ok(HandleResponse { messages: Vec::new(), event: TableEvent::ConfigUpdated })
}

/// Owner only: sets the cap on payout exposure.
pub fn handle_update_max_bet_rate(table: &mut Table, info: &MessageInfo, rate: u8) -> (r: TableResult)
    requires
        old(table).wf(),
    ensures
        final(table).wf(),
        update_post(
            *old(table),
            *final(table),
            info.sender@,
            r,
            (*final(table) == (Table { params: Params { max_bet_rate: rate, ..old(table).params }, ..*old(table) })),
        ),
{
    if !same_bytes(&table.config.owner, &info.sender) {
        return Err(ContractError::Unauthorized);
    }
    table.params.max_bet_rate = rate;
    Ok(HandleResponse { messages: Vec::new(), event: TableEvent::ConfigUpdated })
}

/// Owner only: sets the house fee applied to bets placed from now on.
pub fn handle_update_house_fee(table: &mut Table, info: &MessageInfo, house_fee: u64) -> (r: TableResult)
    requires
        old(table).wf(),
    ensures
        final(table).wf(),
        update_post(
            *old(table),
            *final(table),
            info.sender@,
            r,
            (*final(table) == (Table { params: Params { house_fee, ..old(table).params }, ..*old(table) })),
        ),
{
    if !same_bytes(&table.config.owner, &info.sender) {
        return Err(ContractError::Unauthorized);
    }
    table.params.house_fee = house_fee;
    Ok(HandleResponse { messages: Vec::new(), event: TableEvent::ConfigUpdated })
}

/// Owner only: resets the running total of stakes.
pub fn handle_update_bet_amount_sum(table: &mut Table, info: &MessageInfo, amount: u128) -> (r: TableResult)
    requires
        old(table).wf(),
    ensures
        final(table).wf(),
        update_post(
            *old(table),
            *final(table),
            info.sender@,
            r,
            (*final(table) == (Table { state: State { cumulative_bet_amount: amount }, ..*old(table) })),
        ),
{
    if !same_bytes(&table.config.owner, &info.sender) {
        return Err(ContractError::Unauthorized);
    }
    table.state.cumulative_bet_amount = amount;
    Ok(HandleResponse { messages: Vec::new(), event: TableEvent::ConfigUpdated })
}

/// A new table owned by the caller, with no pool, parameters at zero and no
/// open bets.
pub fn init(info: &MessageInfo) -> (r: Table)
    ensures
        r.wf(),
        r.config.owner@ == info.sender@,
        r.config.house_contract@.len() == 0,
        r.config.name@.len() == 0,
        r.config.description@.len() == 0,
        r.params == (Params { min_bet_amount: 0, max_bet_amount: 0, max_bet_rate: 0, house_fee: 0 }),
        r.state == (State { cumulative_bet_amount: 0 }),
        r.bets@.len() == 0,
{
    Table {
        config: Config {
            owner: copy_bytes(&info.sender),
            house_contract: Vec::new(),
            name: String::new(),
            description: String::new(),
        },
        params: Params { min_bet_amount: 0, max_bet_amount: 0, max_bet_rate: 0, house_fee: 0 },
        state: State { cumulative_bet_amount: 0 },
        bets: Vec::new(),
    }
}

/// The table's configuration, parameters and running total.
pub fn query_config(table: &Table) -> (r: ConfigResponse)
    ensures
        r.owner@ == table.config.owner@,
        r.house_contract@ == table.config.house_contract@,
        r.name@ == table.config.name@,
        r.description@ == table.config.description@,
        r.min_bet_amount == table.params.min_bet_amount,
        r.max_bet_amount == table.params.max_bet_amount,
        r.max_bet_rate == table.params.max_bet_rate,
        r.house_fee == table.params.house_fee,
        r.bet_amount_sum == table.state.cumulative_bet_amount,
{
    ConfigResponse {
        owner: copy_bytes(&table.config.owner),
        house_contract: copy_bytes(&table.config.house_contract),
        name: table.config.name.clone(),
        description: table.config.description.clone(),
        min_bet_amount: table.params.min_bet_amount,
        max_bet_amount: table.params.max_bet_amount,
        max_bet_rate: table.params.max_bet_rate,
        house_fee: table.params.house_fee,
        bet_amount_sum: table.state.cumulative_bet_amount,
    }
}

/// A command to the table.
#[derive(Clone, Debug, PartialEq, Eq)]
pub enum HandleMsg {
    UpdateOwner { owner: Vec<u8> },
    UpdateHouseContract { house_contract: Vec<u8> },
    UpdateName { name: String },
    UpdateDescription { description: String },
    UpdateMinBetAmount { amount: u128 },
    UpdateMaxBetAmount { amount: u128 },
    UpdateMaxBetRate { rate: u8 },
    UpdateHouseFee { house_fee: u64 },
    UpdateBetAmountSum { amount: u128 },
    Bet { bet_amount: u128, prediction_number: u8, position: bool },
    Result {},
}

/// Runs command `msg` for the caller of `info` in `block`.
pub fn handle(table: &mut Table, info: &MessageInfo, block: &BlockInfo, msg: HandleMsg) -> (r: TableResult)
    requires
        old(table).wf(),
    ensures
        final(table).wf(),
        match msg {
            HandleMsg::UpdateOwner { owner } => update_post(*old(table), *final(table), info.sender@, r,
                final(table).config.owner@ == owner@ && *final(table) == (Table { config: Config { owner: final(table).config.owner, ..old(table).config }, ..*old(table) })),
            HandleMsg::UpdateHouseContract { house_contract } => update_post(*old(table), *final(table), info.sender@, r,
                final(table).config.house_contract@ == house_contract@ && *final(table) == (Table { config: Config { house_contract: final(table).config.house_contract, ..old(table).config }, ..*old(table) })),
            HandleMsg::UpdateName { name } => update_post(*old(table), *final(table), info.sender@, r,
                final(table).config.name@ == name@ && *final(table) == (Table { config: Config { name: final(table).config.name, ..old(table).config }, ..*old(table) })),
            HandleMsg::UpdateDescription { description } => update_post(*old(table), *final(table), info.sender@, r,
                final(table).config.description@ == description@ && *final(table) == (Table { config: Config { description: final(table).config.description, ..old(table).config }, ..*old(table) })),
            HandleMsg::UpdateMinBetAmount { amount } => update_post(*old(table), *final(table), info.sender@, r,
                *final(table) == (Table { params: Params { min_bet_amount: amount, ..old(table).params }, ..*old(table) })),
            HandleMsg::UpdateMaxBetAmount { amount } => update_post(*old(table), *final(table), info.sender@, r,
                *final(table) == (Table { params: Params { max_bet_amount: amount, ..old(table).params }, ..*old(table) })),
            HandleMsg::UpdateMaxBetRate { rate } => update_post(*old(table), *final(table), info.sender@, r,
                *final(table) == (Table { params: Params { max_bet_rate: rate, ..old(table).params }, ..*old(table) })),
            HandleMsg::UpdateHouseFee { house_fee } => update_post(*old(table), *final(table), info.sender@, r,
                *final(table) == (Table { params: Params { house_fee, ..old(table).params }, ..*old(table) })),
            HandleMsg::UpdateBetAmountSum { amount } => update_post(*old(table), *final(table), info.sender@, r,
                *final(table) == (Table { state: State { cumulative_bet_amount: amount }, ..*old(table) })),
            HandleMsg::Bet { bet_amount, prediction_number, position } => bet_post(
                *old(table),
                *final(table),
                *info,
                *block,
                bet_amount,
                prediction_number,
                position,
                r,
            ),
            HandleMsg::Result {  } => result_post(*old(table), *final(table), *info, *block, r),
        },
{
    match msg {
        HandleMsg::UpdateOwner { owner } => handle_update_owner(table, info, &owner),
        HandleMsg::UpdateHouseContract { house_contract } => handle_update_house_contract(
            table,
            info,
            &house_contract,
        ),
        HandleMsg::UpdateName { name } => handle_update_name(table, info, name),
        HandleMsg::UpdateDescription { description } => handle_update_description(
            table,
            info,
            description,
        ),
        HandleMsg::UpdateMinBetAmount { amount } => handle_update_min_bet_amount(table, info, amount),
        HandleMsg::UpdateMaxBetAmount { amount } => handle_update_max_bet_amount(table, info, amount),
        HandleMsg::UpdateMaxBetRate { rate } => handle_update_max_bet_rate(table, info, rate),
        HandleMsg::UpdateHouseFee { house_fee } => handle_update_house_fee(table, info, house_fee),
        HandleMsg::UpdateBetAmountSum { amount } => handle_update_bet_amount_sum(table, info, amount),
        HandleMsg::Bet { bet_amount, prediction_number, position } => handle_bet(
            table,
            info,
            block,
            bet_amount,
            prediction_number,
            position,
        ),
        HandleMsg::Result {  } => handle_result(table, info, block),
    }
}

/// A bet is resolved at most once: after a call that resolved or refunded it,
/// the next call to resolve it, in any block, fails with `NoGame` and
/// changes nothing.
pub proof fn lemma_resolved_bet_is_gone(
    before: Table,
    middle: Table,
    after: Table,
    info: MessageInfo,
    block: BlockInfo,
    r: TableResult,
    later_info: MessageInfo,
    later_block: BlockInfo,
    later_r: TableResult,
)
    requires
        result_post(before, middle, info, block, r),
        r is Ok,
        result_post(middle, after, later_info, later_block, later_r),
        later_info.sender@ == info.sender@,
    ensures
        later_r == Err::<HandleResponse<TableEvent>, ContractError>(ContractError::NoGame),
        after == middle,
{
    assert(middle.open_bet(info.sender@) is None);
}

} // verus!
