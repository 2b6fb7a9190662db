use vstd::prelude::*;

use crate::bond_token::{Cw20InstantiateMsg, InstantiateMsg as BondInstantiateMsg};
use crate::phase::Phase;
use crate::placeholder::InvesmentRule;

verus! {

/// Native coins sent along with a call.
#[derive(Clone, Debug, PartialEq, Eq)]
pub struct Coin {
    pub denom: String,
    pub amount: u128,
}

/// What a new contract instance is created with.
#[derive(Clone, Debug, PartialEq, Eq)]
pub enum InstantiatePayload {
    /// A currency ledger.
    Currency(Cw20InstantiateMsg),
    /// A bond ledger.
    BondToken(BondInstantiateMsg),
    /// Any contract, with its creation message already encoded.
    Raw(Vec<u8>),
}

/// A call that an operation asks the environment to make once its own state
/// change is committed. Calls run in the order in which they are returned,
/// and a failing call undoes the whole invocation.
#[derive(Clone, Debug, PartialEq, Eq)]
pub enum OutMsg {
    /// Move `amount` of `token` from the caller to `recipient`.
    Transfer { token: String, recipient: String, amount: u128 },
    /// Move `amount` of `token` from `owner` to `recipient` under an allowance.
    TransferFrom { token: String, owner: String, recipient: String, amount: u128 },
    /// Create `amount` of `token` for `recipient`.
    Mint { token: String, recipient: String, amount: u128 },
    /// Ask a bond ledger to move to `phase`.
    UpdatePhase { bond_token: String, phase: Phase },
    /// Ask a bond ledger to issue units worth `currency_amount` to `recipient`.
    MintToInvestor { bond_token: String, issuer: String, recipient: String, currency_amount: u128 },
    /// Ask a bond ledger to burn everything `holder` holds.
    BurnFromHolder { bond_token: String, issuer: String, holder: String },
    /// Ask the escrow to record a net subscription and its fee.
    RegisterSubscription {
        placeholder: String,
        investor: String,
        currency: String,
        subscription_amount: u128,
        fee_amount: u128,
    },
    /// Ask the escrow to settle a bond's subscriptions under the given caps.
    ReleaseCurrency {
        placeholder: String,
        issuer: String,
        bond_token: String,
        currency: String,
        investment_rules: Vec<InvesmentRule>,
    },
    /// Create a contract instance from stored code.
    Instantiate { admin: Option<String>, code_id: u64, msg: InstantiatePayload, funds: Vec<Coin>, label: String },
}

} // verus!
