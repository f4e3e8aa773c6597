use vstd::prelude::*;
use crate::wallet::{AccountId, ErrorCode, ProofCheck, BurnFunds};
use crate::store::BurnStore;
use crate::engine::{burn_step, burn_outcome, serial_balance, serial_outcome};

verus! {

/// How many of the attempts `attempts`, applied in order from `balance`, succeed.
pub open spec fn serial_accepted(balance: u64, attempts: Seq<(u64, ProofCheck)>) -> nat
    decreases attempts.len(),
{
    if attempts.len() == 0 {
        0
    } else {
        serial_accepted(balance, attempts.drop_last()) + if serial_outcome(balance, attempts) is Ok {
            1nat
        } else {
            0nat
        }
    }
}

/// The sum of the amounts of those attempts of `attempts` that succeed.
pub open spec fn serial_burned(balance: u64, attempts: Seq<(u64, ProofCheck)>) -> nat
    decreases attempts.len(),
{
    if attempts.len() == 0 {
        0
    } else {
        serial_burned(balance, attempts.drop_last()) + if serial_outcome(balance, attempts) is Ok {
            attempts.last().0 as nat
        } else {
            0nat
        }
    }
}

/// A burn never takes a balance below zero: a successful burn leaves exactly
/// the old balance minus the amount, and an accepted burn of more than the
/// balance is refused with `InsufficientBalance`.
pub proof fn lemma_burn_never_underflows(balance: u64, amount: u64, check: ProofCheck)
    ensures
        burn_step(balance, amount, check) matches Ok(after) ==> after + amount == balance,
        check.accepts() && amount > balance ==> burn_step(balance, amount, check) == Err::<
            u64,
            ErrorCode,
        >(ErrorCode::InsufficientBalance),
{
}

/// Over any sequence of burn attempts on one account, with valid or invalid
/// proofs and any amounts, the balance left plus the total of the successful
/// burns equals the starting balance: the balance never falls below zero nor
/// rises, and a successful attempt returns the starting balance minus all that
/// was burned up to and including it.
pub proof fn lemma_serial_burns_conserve(balance: u64, attempts: Seq<(u64, ProofCheck)>)
    ensures
        serial_balance(balance, attempts) + serial_burned(balance, attempts) == balance,
        serial_balance(balance, attempts) <= balance,
        serial_burned(balance, attempts) <= balance,
        serial_outcome(balance, attempts) matches Ok(after) ==> attempts.len() > 0
            && after == serial_balance(balance, attempts)
            && after == balance - serial_burned(balance, attempts),
    decreases attempts.len(),
{
    if attempts.len() > 0 {
        lemma_serial_burns_conserve(balance, attempts.drop_last());
    }
}

/// For every attempt of a queue on one account (as `burn_queue` reports
/// them), a success returns the starting balance minus the total burned by
/// the successes up to and including it.
pub proof fn lemma_queue_results_conserve(balance: u64, attempts: Seq<(u64, ProofCheck)>)
    ensures
        forall|j: int|
            0 <= j < attempts.len() ==> (#[trigger] serial_outcome(balance, attempts.take(j + 1)) matches Ok(after)
                ==> after + serial_burned(balance, attempts.take(j + 1)) == balance),
{
    assert forall|j: int| 0 <= j < attempts.len() implies (#[trigger] serial_outcome(
        balance,
        attempts.take(j + 1),
    ) matches Ok(after) ==> after + serial_burned(balance, attempts.take(j + 1)) == balance) by {
        lemma_serial_burns_conserve(balance, attempts.take(j + 1));
    }
}

/// A burn on an existing account whose proof is not accepted (invalid, or
/// the verifier faulted) is refused with `InvalidProof`, whatever the amount.
pub proof fn lemma_unaccepted_proof_rejected(s: BurnStore, req: BurnFunds, check: ProofCheck)
    requires
        s.has(req.burn_wallet),
        !check.accepts(),
    ensures
        burn_outcome(s, req, check) == Err::<u64, ErrorCode>(ErrorCode::InvalidProof),
{
}

/// A valid burn on an existing account for more than its balance is refused
/// with `InsufficientBalance`.
pub proof fn lemma_overdraw_rejected(s: BurnStore, req: BurnFunds)
    requires
        s.has(req.burn_wallet),
        req.amount > s.balance(req.burn_wallet),
    ensures
        burn_outcome(s, req, ProofCheck::Valid) == Err::<u64, ErrorCode>(
            ErrorCode::InsufficientBalance,
        ),
{
}

/// The outcome that the `m`-th of a run of valid burns of `a` from `balance`
/// has: success while `m * a` fits in the balance, `InsufficientBalance` after.
pub open spec fn equal_burn_outcome(balance: u64, a: u64, m: int) -> Result<u64, ErrorCode> {
    if m * a <= balance {
        Ok((balance - m * a) as u64)
    } else {
        Err(ErrorCode::InsufficientBalance)
    }
}

/// Valid burns of one amount `a` applied one at a time from `balance`: `k`
/// of them succeed, the balance left is `balance - k * a`, the ones that
/// succeeded fit, when some failed the next one would not have fit, and the
/// last one has the outcome `equal_burn_outcome` gives.
proof fn lemma_equal_burns_step(balance: u64, a: u64, attempts: Seq<(u64, ProofCheck)>)
    requires
        forall|i: int| 0 <= i < attempts.len() ==> #[trigger] attempts[i] == (a, ProofCheck::Valid),
    ensures
        serial_accepted(balance, attempts) <= attempts.len(),
        serial_accepted(balance, attempts) * a <= balance,
        serial_balance(balance, attempts) == balance - serial_accepted(balance, attempts) * a,
        serial_accepted(balance, attempts) < attempts.len() ==> balance < (serial_accepted(
            balance,
            attempts,
        ) + 1) * a,
        attempts.len() > 0 ==> serial_outcome(balance, attempts) == equal_burn_outcome(
            balance,
            a,
            attempts.len() as int,
        ),
    decreases attempts.len(),
{
    if attempts.len() > 0 {
        let prefix = attempts.drop_last();
        assert forall|i: int| 0 <= i < prefix.len() implies #[trigger] prefix[i] == (
            a,
            ProofCheck::Valid,
        ) by {
            assert(prefix[i] == attempts[i]);
        }
        lemma_equal_burns_step(balance, a, prefix);
        let k = serial_accepted(balance, prefix);
        let m = prefix.len();
        assert(attempts.last() == (a, ProofCheck::Valid));
        assert((k + 1) * a == k * a + a) by (nonlinear_arith);
        assert((m + 1) * a == m * a + a) by (nonlinear_arith);
        if k < m {
            assert((k + 1) * a <= m * a) by (nonlinear_arith)
                requires
                    k + 1 <= m,
            ;
        }
    }
}

/// Valid burns of one amount `a`, `n` of them, against a balance `balance`,
/// taken in the serial order in which the store applies them: the `j`-th
/// (from 0) succeeds with `balance - (j + 1) * a` exactly when
/// `(j + 1) * a <= balance` and otherwise fails with `InsufficientBalance`.
/// So when `n * a <= balance` all succeed and leave `balance - n * a`; when
/// not, exactly the `k` that fit succeed (`k * a <= balance < (k + 1) * a`),
/// the rest fail, and `balance - k * a` is left.
pub proof fn lemma_equal_burns_serialize(balance: u64, a: u64, attempts: Seq<(u64, ProofCheck)>)
    requires
        forall|i: int| 0 <= i < attempts.len() ==> #[trigger] attempts[i] == (a, ProofCheck::Valid),
    ensures
        forall|j: int|
            0 <= j < attempts.len() ==> #[trigger] serial_outcome(balance, attempts.take(j + 1))
                == equal_burn_outcome(balance, a, j + 1),
        attempts.len() * a <= balance ==> serial_accepted(balance, attempts) == attempts.len()
            && serial_balance(balance, attempts) == balance - attempts.len() * a,
        attempts.len() * a > balance ==> {
            let k = serial_accepted(balance, attempts);
            &&& k < attempts.len()
            &&& k * a <= balance < (k + 1) * a
            &&& serial_balance(balance, attempts) == balance - k * a
        },
{
    lemma_equal_burns_step(balance, a, attempts);
    let k = serial_accepted(balance, attempts);
    let n = attempts.len();
    if k < n {
        assert((k + 1) * a <= n * a) by (nonlinear_arith)
            requires
                k + 1 <= n,
        ;
    }
    assert forall|j: int| 0 <= j < attempts.len() implies #[trigger] serial_outcome(
        balance,
        attempts.take(j + 1),
    ) == equal_burn_outcome(balance, a, j + 1) by {
        let p = attempts.take(j + 1);
        assert forall|i: int| 0 <= i < p.len() implies #[trigger] p[i] == (a, ProofCheck::Valid) by {
            assert(p[i] == attempts[i]);
        }
        lemma_equal_burns_step(balance, a, p);
    }
}

/// In a well-formed store, which every store built by `BurnStore::new`,
/// `create_burn_wallet` and `burn_funds` is, no two accounts share an
/// identifier: creating `m` accounts yields `m` distinct identifiers.
pub proof fn lemma_identifiers_unique(s: BurnStore, i: int, j: int)
    requires
        s.wf(),
        0 <= i < s.wallets().len(),
        0 <= j < s.wallets().len(),
        i != j,
    ensures
        s.wallets()[i].id != s.wallets()[j].id,
{
}

/// A lookup depends on the accounts alone: two stores with the same accounts
/// (for instance before and after a refused burn, which only adds to the
/// audit log) answer every lookup alike.
pub proof fn lemma_lookup_stable(s1: BurnStore, s2: BurnStore, id: AccountId)
    requires
        s1.wallets() == s2.wallets(),
    ensures
        s1.lookup_spec(id) == s2.lookup_spec(id),
{
}

} // verus!
