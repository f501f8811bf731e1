//! The deposit ledger: balances per (owner, denomination), credited by
//! deposits and debited by withdrawals, both gated by the whitelist registry.

use vstd::prelude::*;

use crate::whitelist::{admitted_in, Admission, Whitelist};

verus! {

/// An amount of one native denomination attached to a request.
#[derive(Debug)]
pub struct Coin {
    pub denom: String,
    pub amount: u128,
}

/// The three families of failure a ledger operation can report.
#[derive(Clone, Copy, Debug, PartialEq, Eq, Structural)]
pub enum ErrorKind {
    /// Malformed input: wrong funds shape, zero amount, invalid address.
    Validation,
    /// A denomination that the registry does not admit.
    Policy,
    /// A balance that would go negative or past the integer range.
    Invariant,
}

/// Why a ledger operation was refused. A refused operation changes nothing.
#[derive(Clone, Copy, Debug, PartialEq, Eq, Structural)]
pub enum LedgerError {
    /// A deposit must carry exactly one coin.
    InvalidFundsShape,
    /// The denomination is not admitted by the registry.
    DenomNotWhitelisted,
    /// The amount is zero.
    ZeroAmount,
    /// The payout address given for a withdrawal failed validation.
    InvalidRecipient,
    /// The balance is smaller than the amount to withdraw.
    InsufficientBalance,
    /// The credited balance would not fit in 128 bits.
    BalanceOverflow,
}

impl LedgerError {
    pub open spec fn spec_kind(self) -> ErrorKind {
        match self {
            LedgerError::InvalidFundsShape => ErrorKind::Validation,
            LedgerError::ZeroAmount => ErrorKind::Validation,
            LedgerError::InvalidRecipient => ErrorKind::Validation,
            LedgerError::DenomNotWhitelisted => ErrorKind::Policy,
            LedgerError::InsufficientBalance => ErrorKind::Invariant,
            LedgerError::BalanceOverflow => ErrorKind::Invariant,
        }
    }

    /// The family this error belongs to.
    pub fn kind(&self) -> (r: ErrorKind)
        ensures
            r == self.spec_kind(),
    {
        match self {
            LedgerError::InvalidFundsShape => ErrorKind::Validation,
            LedgerError::ZeroAmount => ErrorKind::Validation,
            LedgerError::InvalidRecipient => ErrorKind::Validation,
            LedgerError::DenomNotWhitelisted => ErrorKind::Policy,
            LedgerError::InsufficientBalance => ErrorKind::Invariant,
            LedgerError::BalanceOverflow => ErrorKind::Invariant,
        }
    }
}

/// Where a withdrawal pays out, as resolved by the caller after validating
/// the address that came with the request.
#[derive(Debug)]
pub enum PayoutTarget {
    /// No address was given: pay the requester.
    Requester,
    /// A validated address.
    Address(String),
    /// An address was given and failed validation.
    Rejected,
}

/// The abstract state of a ledger: the registry's flags and the stored
/// balances. An absent balance entry reads as zero.
pub struct LedgerState {
    pub whitelist: Map<Seq<char>, bool>,
    pub balances: Map<(Seq<char>, Seq<char>), u128>,
}

/// The balance of `owner` in `denom`; zero when nothing is stored.
pub open spec fn balance_in(b: Map<(Seq<char>, Seq<char>), u128>, owner: Seq<char>, denom: Seq<char>) -> u128 {
    if b.contains_key((owner, denom)) {
        b[(owner, denom)]
    } else {
        0
    }
}

/// The funds of a request as (denomination, amount) pairs.
pub open spec fn coins_view(funds: Seq<Coin>) -> Seq<(Seq<char>, u128)> {
    funds.map_values(|c: Coin| (c.denom@, c.amount))
}

/// The account that a withdrawal pays out to.
pub open spec fn payout_address(requester: Seq<char>, target: PayoutTarget) -> Seq<char> {
    match target {
        PayoutTarget::Address(a) => a@,
        _ => requester,
    }
}

/// What a deposit of `funds` by `sender` does to the state `s`.
pub open spec fn deposit_result(s: LedgerState, sender: Seq<char>, funds: Seq<(Seq<char>, u128)>) -> Result<
    LedgerState,
    LedgerError,
> {
    if funds.len() != 1 {
        Err(LedgerError::InvalidFundsShape)
    } else if !admitted_in(s.whitelist, funds[0].0) {
        Err(LedgerError::DenomNotWhitelisted)
    } else if funds[0].1 == 0 {
        Err(LedgerError::ZeroAmount)
    } else if balance_in(s.balances, sender, funds[0].0) + funds[0].1 > u128::MAX {
        Err(LedgerError::BalanceOverflow)
    } else {
        Ok(
            LedgerState {
                whitelist: s.whitelist,
                balances: s.balances.insert(
                    (sender, funds[0].0),
                    (balance_in(s.balances, sender, funds[0].0) + funds[0].1) as u128,
                ),
            },
        )
    }
}

/// What a withdrawal of `amount` of `denom` requested by `requester` does to
/// the state `s`. The requester's own balance is debited, whatever the payout
/// target.
pub open spec fn withdraw_result(
    s: LedgerState,
    requester: Seq<char>,
    denom: Seq<char>,
    amount: u128,
    target: PayoutTarget,
) -> Result<LedgerState, LedgerError> {
    if !admitted_in(s.whitelist, denom) {
        Err(LedgerError::DenomNotWhitelisted)
    } else if target is Rejected {
        Err(LedgerError::InvalidRecipient)
    } else if amount == 0 {
        Err(LedgerError::ZeroAmount)
    } else if balance_in(s.balances, requester, denom) < amount {
        Err(LedgerError::InsufficientBalance)
    } else {
        Ok(
            LedgerState {
                whitelist: s.whitelist,
                balances: s.balances.insert(
                    (requester, denom),
                    (balance_in(s.balances, requester, denom) - amount) as u128,
                ),
            },
        )
    }
}

/// The audit record of an accepted deposit.
#[derive(Debug)]
pub struct Deposited {
    pub owner: String,
    pub denom: String,
    pub amount: u128,
}

/// The audit record of an accepted withdrawal, and the payout it schedules:
/// `amount` of `denom` leaves the balance of `owner` and is sent to
/// `recipient`.
#[derive(Debug)]
pub struct Withdrawal {
    pub owner: String,
    pub recipient: String,
    pub denom: String,
    pub amount: u128,
}

/// One stored balance.
#[derive(Debug)]
struct BalanceEntry {
    pub owner: String,
    pub denom: String,
    pub amount: u128,
}

/// The ledger: the whitelist registry and the balance store, held as a
/// working copy that a host loads from and writes back to durable storage.
pub struct Ledger {
    registry: Whitelist,
    entries: Vec<BalanceEntry>,
    model: Ghost<Map<(Seq<char>, Seq<char>), u128>>,
}

impl View for Ledger {
    type V = LedgerState;

    closed spec fn view(&self) -> LedgerState {
        LedgerState { whitelist: self.registry@, balances: self.model@ }
    }
}

impl Ledger {
    /// The registry is well formed, the stored entries and the map agree,
    /// and no (owner, denomination) pair is stored twice.
    pub closed spec fn wf(&self) -> bool {
        &&& self.registry.wf()
        &&& forall|i: int|
            0 <= i < self.entries@.len() ==> {
                &&& self.model@.contains_key(
                    (#[trigger] self.entries@[i].owner@, self.entries@[i].denom@),
                )
                &&& self.model@[(self.entries@[i].owner@, self.entries@[i].denom@)]
                    == self.entries@[i].amount
            }
        &&& forall|k: (Seq<char>, Seq<char>)|
            #[trigger] self.model@.contains_key(k) ==> exists|i: int|
                0 <= i < self.entries@.len() && #[trigger] self.entries@[i].owner@ == k.0
                    && self.entries@[i].denom@ == k.1
        &&& forall|i: int, j: int|
            0 <= i < self.entries@.len() && 0 <= j < self.entries@.len() && i != j ==> (
            #[trigger] self.entries@[i].owner@ != #[trigger] self.entries@[j].owner@
                || self.entries@[i].denom@ != self.entries@[j].denom@)
    }

    /// An empty ledger: nothing admitted, every balance zero.
    pub fn new() -> (r: Ledger)
        ensures
            r.wf(),
            r@.whitelist == Map::<Seq<char>, bool>::empty(),
            r@.balances == Map::<(Seq<char>, Seq<char>), u128>::empty(),
    {
        Ledger { registry: Whitelist::new(), entries: Vec::new(), model: Ghost(Map::empty()) }
    }

    /// Stores `admitted` as the flag of `denom`. No caller check is made
    /// here: whoever may change the registry is decided by the host.
    pub fn set_whitelist(&mut self, denom: String, admitted: bool)
        requires
            old(self).wf(),
        ensures
            final(self).wf(),
            final(self)@.whitelist == old(self)@.whitelist.insert(denom@, admitted),
            final(self)@.balances == old(self)@.balances,
    {
        self.registry.set(denom, admitted);
        assert(self.entries@ == old(self).entries@);
        assert(self.model@ == old(self).model@);
    }

    /// Whether `denom` is admitted; `false` when no flag is stored.
    pub fn is_whitelisted(&self, denom: &String) -> (r: bool)
        requires
            self.wf(),
        ensures
            r == admitted_in(self@.whitelist, denom@),
    {
        self.registry.is_whitelisted(denom)
    }

    /// The policy decision for `denom`.
    pub fn admission(&self, denom: &String) -> (r: Admission)
        requires
            self.wf(),
        ensures
            r == (if admitted_in(self@.whitelist, denom@) {
                Admission::Admitted
            } else {
                Admission::Denied
            }),
    {
        self.registry.admission(denom)
    }

    /// The position of the entry of (`owner`, `denom`), if one is stored.
    fn position(&self, owner: &String, denom: &String) -> (r: Option<usize>)
        requires
            self.wf(),
        ensures
            match r {
                Some(i) => i < self.entries@.len() && self.entries@[i as int].owner@ == owner@
                    && self.entries@[i as int].denom@ == denom@,
                None => !self.model@.contains_key((owner@, denom@)),
            },
    {
        let n = self.entries.len();
        for i in 0..n
            invariant
                n == self.entries@.len(),
                forall|j: int|
                    0 <= j < i ==> !(self.entries@[j].owner@ == owner@ && self.entries@[j].denom@
                        == denom@),
        {
            if self.entries[i].owner == *owner && self.entries[i].denom == *denom {
                return Some(i);
            }
        }
        None
    }

    /// The balance of `owner` in `denom`: zero when nothing is stored.
    pub fn query_balance(&self, owner: &String, denom: &String) -> (r: u128)
        requires
            self.wf(),
        ensures
            r == balance_in(self@.balances, owner@, denom@),
    {
        match self.position(owner, denom) {
            Some(i) => self.entries[i].amount,
            None => 0,
        }
    }

    /// Writes `amount` as the balance of (`owner`, `denom`).
    fn store(&mut self, owner: String, denom: String, amount: u128)
        requires
            old(self).wf(),
        ensures
            final(self).wf(),
            final(self)@.whitelist == old(self)@.whitelist,
            final(self)@.balances == old(self)@.balances.insert((owner@, denom@), amount),
    {
        let ghost key = (owner@, denom@);
        let ghost mut at: int = 0;
        match self.position(&owner, &denom) {
            Some(i) => {
                self.entries.set(i, BalanceEntry { owner, denom, amount });
                proof {
                    at = i as int;
                }
            },
            None => {
                self.entries.push(BalanceEntry { owner, denom, amount });
                proof {
                    at = self.entries@.len() - 1;
                }
            },
        }
        self.model = Ghost(self.model@.insert(key, amount));
        proof {
            assert forall|k: (Seq<char>, Seq<char>)| #[trigger] self.model@.contains_key(k) implies exists|i: int|
                0 <= i < self.entries@.len() && #[trigger] self.entries@[i].owner@ == k.0
                    && self.entries@[i].denom@ == k.1 by {
                if k != key {
                    assert(old(self).model@.contains_key(k));
                    let i = choose|i: int|
                        0 <= i < old(self).entries@.len() && #[trigger] old(self).entries@[i].owner@ == k.0
                            && old(self).entries@[i].denom@ == k.1;
                    assert(self.entries@[i].owner@ == k.0);
                } else {
                    assert(self.entries@[at].owner@ == k.0);
                }
            }
        }
    }

    /// Places a balance read from durable storage into this working copy.
    pub fn load_balance(&mut self, owner: String, denom: String, amount: u128)
        requires
            old(self).wf(),
        ensures
            final(self).wf(),
            final(self)@.whitelist == old(self)@.whitelist,
            final(self)@.balances == old(self)@.balances.insert((owner@, denom@), amount),
    {
        self.store(owner, denom, amount);
    }
    /// Credits the single coin in `funds` to the balance of `sender`.
    ///
    /// Refused, in this order of checks: `InvalidFundsShape` unless `funds`
    /// holds exactly one coin; `DenomNotWhitelisted` when its denomination is
    /// not admitted; `ZeroAmount` for a zero amount; `BalanceOverflow` when
    /// the new balance would not fit in 128 bits.
    pub fn deposit(&mut self, sender: &String, funds: &Vec<Coin>) -> (r: Result<Deposited, LedgerError>)
        requires
            old(self).wf(),
        ensures
            final(self).wf(),
            match deposit_result(old(self)@, sender@, coins_view(funds@)) {
                Ok(s) => {
                    &&& r is Ok
                    &&& final(self)@ == s
                    &&& r->Ok_0.owner@ == sender@
                    &&& r->Ok_0.denom@ == funds@[0].denom@
                    &&& r->Ok_0.amount == funds@[0].amount
                },
                Err(e) => r == Err::<Deposited, LedgerError>(e) && final(self)@ == old(self)@,
            },
    {
        if funds.len() != 1 {
            return Err(LedgerError::InvalidFundsShape);
        }
        let coin = &funds[0];
        assert(coins_view(funds@)[0] == (coin.denom@, coin.amount));
        if !self.registry.is_whitelisted(&coin.denom) {
            return Err(LedgerError::DenomNotWhitelisted);
        }
        if coin.amount == 0 {
            return Err(LedgerError::ZeroAmount);
        }
        let current = self.query_balance(sender, &coin.denom);
        match current.checked_add(coin.amount) {
            None => Err(LedgerError::BalanceOverflow),
            Some(total) => {
                self.store(sender.clone(), coin.denom.clone(), total);
                Ok(Deposited { owner: sender.clone(), denom: coin.denom.clone(), amount: coin.amount })
            },
        }
    }

    /// Debits `amount` of `denom` from the balance of `requester` and
    /// schedules its payout to the resolved `target`.
    ///
    /// The requester's own balance is debited even when the payout goes to
    /// another address: a caller can only spend what it deposited.
    /// Refused, in this order of checks: `DenomNotWhitelisted` when `denom`
    /// is not admitted; `InvalidRecipient` when the given address failed
    /// validation; `ZeroAmount` for a zero amount; `InsufficientBalance` when
    /// the requester holds less than `amount`.
    pub fn withdraw(
        &mut self,
        requester: &String,
        denom: &String,
        amount: u128,
        target: PayoutTarget,
    ) -> (r: Result<Withdrawal, LedgerError>)
        requires
            old(self).wf(),
        ensures
            final(self).wf(),
            match withdraw_result(old(self)@, requester@, denom@, amount, target) {
                Ok(s) => {
                    &&& r is Ok
                    &&& final(self)@ == s
                    &&& r->Ok_0.owner@ == requester@
                    &&& r->Ok_0.recipient@ == payout_address(requester@, target)
                    &&& r->Ok_0.denom@ == denom@
                    &&& r->Ok_0.amount == amount
                },
                Err(e) => r == Err::<Withdrawal, LedgerError>(e) && final(self)@ == old(self)@,
            },
    {
        if !self.registry.is_whitelisted(denom) {
            return Err(LedgerError::DenomNotWhitelisted);
        }
        let recipient = match target {
            PayoutTarget::Requester => requester.clone(),
            PayoutTarget::Address(a) => a,
            PayoutTarget::Rejected => {
                return Err(LedgerError::InvalidRecipient);
            },
        };
        if amount == 0 {
            return Err(LedgerError::ZeroAmount);
        }
        let current = self.query_balance(requester, denom);
        match current.checked_sub(amount) {
            None => Err(LedgerError::InsufficientBalance),
            Some(rest) => {
                self.store(requester.clone(), denom.clone(), rest);
                Ok(Withdrawal { owner: requester.clone(), recipient, denom: denom.clone(), amount })
            },
        }
    }
}

} // verus!
