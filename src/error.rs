//! Errors of the pool and of the game table.

use vstd::prelude::*;

verus! {

/// Why a pool call failed; a failed call changes nothing.
#[derive(Clone, Copy, Debug, PartialEq, Eq, Structural)]
pub enum PoolError {
    /// The caller is not the owner, a registered game contract, or the share token.
    Unauthorized,
    /// No stake coin was attached, or an amount was zero.
    InvalidZeroAmount,
    /// More shares were asked for than the account holds.
    InsufficientBalance,
    /// A share-token notification came without an instruction.
    MissingHookMsg,
    /// An amount would leave the range of 128-bit integers.
    Overflow,
}

/// Why a game-table call failed; a failed call changes nothing.
#[derive(Clone, Copy, Debug, PartialEq, Eq, Structural)]
pub enum ContractError {
    /// The caller is not the table's owner.
    Unauthorized,
    /// The chosen number is outside the range its direction allows.
    InvalidPrediction,
    /// No stake coin was attached, or its amount is zero.
    EmptyStake,
    /// The attached stake differs from the declared stake.
    StakeMismatch,
    /// The bettor already has an unresolved bet.
    BetAlreadyOpen,
    /// The bet was placed in this block or later: retry in a later block.
    NoResult,
    /// The bettor has no open bet.
    NoGame,
    /// An amount would leave the range of 128-bit integers.
    Overflow,
}

} // verus!
