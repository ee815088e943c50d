//! Values exchanged with the host: who called, what was attached, which block
//! is being executed, and the outbound intents a handler emits.

use vstd::prelude::*;

verus! {

/// The kind of an asset: a native coin by denomination, or a token contract.
#[derive(Clone, Debug, PartialEq, Eq)]
pub enum AssetInfo {
    CW20Token { contract_addr: Vec<u8> },
    SNIP20Token { contract_addr: Vec<u8> },
    NativeToken { denom: String },
}

/// An amount of one asset, as attached to a call.
#[derive(Clone, Debug, PartialEq, Eq)]
pub struct Asset {
    pub info: AssetInfo,
    pub amount: u128,
}

/// The caller of a handler and the funds attached to the call.
#[derive(Clone, Debug, PartialEq, Eq)]
pub struct MessageInfo {
    pub sender: Vec<u8>,
    pub sent_funds: Vec<Asset>,
}

/// The block a call executes in.
#[derive(Clone, Debug, PartialEq, Eq)]
pub struct BlockInfo {
    pub height: u64,
    /// Seconds since the UNIX epoch.
    pub time: u64,
    /// Sub-second part of the block time, in nanoseconds.
    pub time_nanos: u64,
    pub chain_id: String,
}

/// The instruction a share-token transfer to the pool carries.
#[derive(Clone, Copy, Debug, PartialEq, Eq)]
pub enum Cw20HookMsg {
    Withdraw {},
}

/// The notification the share token sends when shares are transferred to the
/// pool: who sent them, how many, and the decoded instruction, if any.
#[derive(Clone, Debug, PartialEq, Eq)]
pub struct Cw20ReceiveMsg {
    pub sender: Vec<u8>,
    pub amount: u128,
    pub msg: Option<Cw20HookMsg>,
}

/// Migration takes no arguments.
#[derive(Clone, Copy, Debug, PartialEq, Eq)]
pub struct MigrateMsg {}

/// An outbound intent that a handler emits for the host to dispatch.
#[derive(Clone, Debug, PartialEq, Eq)]
pub enum Outbound {
    /// Transfer `amount` of the native stake coin from this contract.
    BankSend { to_address: Vec<u8>, amount: u128 },
    /// Report a settled bet to the pool, forwarding `send` of the native coin.
    ReportResult {
        contract_addr: Vec<u8>,
        won: bool,
        bet_amount: u128,
        prize_amount: u128,
        winner: Vec<u8>,
        send: u128,
    },
    /// Tell `contract_addr` that `sender` moved `amount` shares to it.
    Cw20Receive { contract_addr: Vec<u8>, sender: Vec<u8>, amount: u128, msg: Option<Vec<u8>> },
}

/// What a successful handler hands back: its outbound intents and a record
/// of what it did.
#[derive(Clone, Debug, PartialEq, Eq)]
pub struct HandleResponse<E> {
    pub messages: Vec<Outbound>,
    pub event: E,
}

} // verus!

verus! {

/// The denomination of the native coin that stakes and reserves are held in.
pub const STAKE_DENOM: &'static str = "uscrt";

/// The amount of the first attached asset that is the native coin `denom`.
pub open spec fn attached_native(funds: Seq<Asset>, denom: Seq<char>) -> Option<u128>
    decreases funds.len(),
{
    if funds.len() == 0 {
        None
    } else if funds[0].info matches AssetInfo::NativeToken { denom: d } && d@ == denom {
        Some(funds[0].amount)
    } else {
        attached_native(funds.subrange(1, funds.len() as int), denom)
    }
}

/// The amount of the stake coin attached to a call, if any is.
pub fn native_amount(funds: &Vec<Asset>) -> (r: Option<u128>)
    ensures
        r == attached_native(funds@, STAKE_DENOM@),
{
    let target: String = STAKE_DENOM.to_string();
    proof {
        broadcast use vstd::string::to_string_from_display_ensures_for_str;
    }
    assert(target@ == STAKE_DENOM@);
    assert(funds@.subrange(0, funds@.len() as int) =~= funds@);
    let mut i: usize = 0;
    while i < funds.len()
        invariant
            i <= funds@.len(),
            target@ == STAKE_DENOM@,
            attached_native(funds@, STAKE_DENOM@) == attached_native(
                funds@.subrange(i as int, funds@.len() as int),
                STAKE_DENOM@,
            ),
        decreases funds@.len() - i,
    {
        let ghost rest = funds@.subrange(i as int, funds@.len() as int);
        assert(rest[0] == funds@[i as int]);
        assert(rest.subrange(1, rest.len() as int) =~= funds@.subrange(i + 1, funds@.len() as int));
        match &funds[i].info {
            AssetInfo::NativeToken { denom } => {
                if *denom == target {
                    return Some(funds[i].amount);
                }
            },
            _ => {},
        }
        i = i + 1;
    }
    None
}

} // verus!
