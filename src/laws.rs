//! Laws of the ledger that relate several requests or hold of every input.

use vstd::prelude::*;

use crate::ledger::{
    balance_in, deposit_result, withdraw_result, ErrorKind, LedgerError, LedgerState, PayoutTarget,
};
use crate::whitelist::admitted_in;

verus! {

/// Applies single-coin deposits `(sender, denom, amount)` in order, stopping
/// at the first refusal.
pub open spec fn deposit_all(s: LedgerState, reqs: Seq<(Seq<char>, Seq<char>, u128)>) -> Result<
    LedgerState,
    LedgerError,
>
    decreases reqs.len(),
{
    if reqs.len() == 0 {
        Ok(s)
    } else {
        match deposit_all(s, reqs.drop_last()) {
            Ok(t) => deposit_result(t, reqs.last().0, seq![(reqs.last().1, reqs.last().2)]),
            Err(e) => Err(e),
        }
    }
}

/// The total that `reqs` deposits for (`owner`, `denom`).
pub open spec fn deposited(reqs: Seq<(Seq<char>, Seq<char>, u128)>, owner: Seq<char>, denom: Seq<char>) -> int
    decreases reqs.len(),
{
    if reqs.len() == 0 {
        0
    } else {
        deposited(reqs.drop_last(), owner, denom) + if reqs.last().0 == owner && reqs.last().1
            == denom {
            reqs.last().2 as int
        } else {
            0
        }
    }
}

/// Deposits accumulate: after any sequence of non-zero deposits into
/// admitted denominations, each (owner, denomination) balance is its
/// starting balance plus the sum of what was deposited to it (so, from an
/// empty ledger, exactly that sum), provided each such total fits in 128 bits.
pub proof fn lemma_deposits_accumulate(s: LedgerState, reqs: Seq<(Seq<char>, Seq<char>, u128)>)
    requires
        forall|i: int|
            0 <= i < reqs.len() ==> admitted_in(s.whitelist, #[trigger] reqs[i].1) && reqs[i].2 > 0,
        forall|o: Seq<char>, d: Seq<char>|
            balance_in(s.balances, o, d) + #[trigger] deposited(reqs, o, d) <= u128::MAX,
    ensures
        deposit_all(s, reqs) is Ok,
        deposit_all(s, reqs)->Ok_0.whitelist == s.whitelist,
        forall|o: Seq<char>, d: Seq<char>|
            #[trigger] balance_in(deposit_all(s, reqs)->Ok_0.balances, o, d) == balance_in(
                s.balances,
                o,
                d,
            ) + deposited(reqs, o, d),
    decreases reqs.len(),
{
    if reqs.len() > 0 {
        let pre = reqs.drop_last();
        let (o0, d0, a0) = reqs.last();
        assert forall|i: int| 0 <= i < pre.len() implies admitted_in(
            s.whitelist,
            #[trigger] pre[i].1,
        ) && pre[i].2 > 0 by {
            assert(pre[i] == reqs[i]);
        }
        assert forall|o: Seq<char>, d: Seq<char>|
            balance_in(s.balances, o, d) + #[trigger] deposited(pre, o, d) <= u128::MAX by {
            assert(deposited(reqs, o, d) >= deposited(pre, o, d));
        }
        lemma_deposits_accumulate(s, pre);
        let t = deposit_all(s, pre)->Ok_0;
        assert(admitted_in(s.whitelist, reqs[reqs.len() - 1].1));
        assert(balance_in(s.balances, o0, d0) + deposited(reqs, o0, d0) <= u128::MAX);
        assert(balance_in(t.balances, o0, d0) == balance_in(s.balances, o0, d0) + deposited(pre, o0, d0));
        let u = deposit_all(s, reqs)->Ok_0;
        assert forall|o: Seq<char>, d: Seq<char>|
            #[trigger] balance_in(u.balances, o, d) == balance_in(s.balances, o, d) + deposited(
                reqs,
                o,
                d,
            ) by {
            assert(balance_in(t.balances, o, d) == balance_in(s.balances, o, d) + deposited(pre, o, d));
        }
    }
}

/// A deposit of a zero amount is always refused: with `ZeroAmount` when the
/// denomination is admitted, and by the whitelist otherwise.
pub proof fn lemma_zero_deposit_refused(s: LedgerState, sender: Seq<char>, denom: Seq<char>)
    ensures
        deposit_result(s, sender, seq![(denom, 0u128)]) is Err,
        admitted_in(s.whitelist, denom) ==> deposit_result(s, sender, seq![(denom, 0u128)])
            == Err::<LedgerState, LedgerError>(LedgerError::ZeroAmount),
{
}

/// A deposit or withdrawal in a denomination that is not admitted fails with
/// a policy error, whatever the amount, the caller or the payout target.
pub proof fn lemma_unlisted_denom_refused(
    s: LedgerState,
    caller: Seq<char>,
    denom: Seq<char>,
    amount: u128,
    target: PayoutTarget,
)
    requires
        !admitted_in(s.whitelist, denom),
    ensures
        deposit_result(s, caller, seq![(denom, amount)]) == Err::<LedgerState, LedgerError>(
            LedgerError::DenomNotWhitelisted,
        ),
        withdraw_result(s, caller, denom, amount, target) == Err::<LedgerState, LedgerError>(
            LedgerError::DenomNotWhitelisted,
        ),
        LedgerError::DenomNotWhitelisted.spec_kind() == ErrorKind::Policy,
{
}

/// Withdrawing more than the requester holds, in an admitted denomination
/// and to a valid target, fails with an invariant error; a refused
/// withdrawal leaves the ledger as it was (see the contract of `withdraw`).
pub proof fn lemma_overdraw_refused(
    s: LedgerState,
    requester: Seq<char>,
    denom: Seq<char>,
    amount: u128,
    target: PayoutTarget,
)
    requires
        admitted_in(s.whitelist, denom),
        !(target is Rejected),
        amount > balance_in(s.balances, requester, denom),
    ensures
        withdraw_result(s, requester, denom, amount, target) == Err::<LedgerState, LedgerError>(
            LedgerError::InsufficientBalance,
        ),
        LedgerError::InsufficientBalance.spec_kind() == ErrorKind::Invariant,
{
}

} // verus!
