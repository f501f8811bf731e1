//! The request shapes the ledger's host accepts.

use vstd::prelude::*;

verus! {

/// A state-changing request.
#[derive(Debug)]
pub enum ExecuteMsg {
    /// Sets whether a denomination is admitted.
    WhiteListCoin { denom: String, status: bool },
    /// Deposits the native coin attached to the request.
    Deposit {},
    /// Withdraws native coins, paid to `recipient` when given, else to the
    /// requester.
    Withdraw { denom: String, amount: u128, recipient: Option<String> },
    /// Moves fungible tokens to another account.
    Transfer { recipient: String, amount: u128 },
    /// Moves fungible tokens to a contract and notifies it with `msg`.
    Send { contract: String, amount: u128, msg: Vec<u8> },
    /// Creates new fungible tokens for `recipient`, if the caller may mint.
    Mint { recipient: String, amount: u128 },
}

/// A read-only request.
#[derive(Debug)]
pub enum QueryMsg {
    /// The fungible-token balance of an address; zero if unset.
    Balance { address: String },
    /// The deposited balance of an address in one denomination; zero if unset.
    BalanceDenom { address: String, denom: String },
    /// The token's name, symbol, decimals and total supply.
    TokenInfo {},
    /// Who may mint, and the cap on the total supply.
    Minter {},
}

} // verus!
