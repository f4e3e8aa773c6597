use vstd::prelude::*;
use crate::wallet::{AccountId, BurnWallet, BurnEvent, ErrorCode, ProofCheck, CreateBurnWallet, BurnFunds};
use crate::store::BurnStore;
use crate::entropy::draw_account_id;

verus! {

/// How many candidate identifiers account creation draws before giving up.
pub const MAX_ID_ATTEMPTS: u32 = 8;

/// The outcome of burning `amount` from `balance` under the verdict `check`:
/// the proof gate first, then the sufficiency check.
pub open spec fn burn_step(balance: u64, amount: u64, check: ProofCheck) -> Result<u64, ErrorCode> {
    if !check.accepts() {
        Err(ErrorCode::InvalidProof)
    } else if amount > balance {
        Err(ErrorCode::InsufficientBalance)
    } else {
        Ok((balance - amount) as u64)
    }
}

/// The outcome of the burn request `req` against the store `s` under `check`.
pub open spec fn burn_outcome(s: BurnStore, req: BurnFunds, check: ProofCheck) -> Result<u64, ErrorCode> {
    if !s.has(req.burn_wallet) {
        Err(ErrorCode::AccountNotFound)
    } else {
        burn_step(s.balance(req.burn_wallet), req.amount, check)
    }
}

/// Decides one burn on a balance: rejects an unaccepted proof, then subtracts
/// with a checked subtraction that refuses to go below zero.
pub fn apply_burn(balance: u64, amount: u64, check: ProofCheck) -> (r: Result<u64, ErrorCode>)
    ensures
        r == burn_step(balance, amount, check),
{
    match check {
        ProofCheck::Valid => match balance.checked_sub(amount) {
            Some(nb) => Ok(nb),
            None => Err(ErrorCode::InsufficientBalance),
        },
        _ => Err(ErrorCode::InvalidProof),
    }
}

/// Opens a burn account with the requested initial balance under a freshly
/// drawn identifier that no account of `store` has. Each of at most
/// `MAX_ID_ATTEMPTS` draws is decided by `creation_attempt`: `AllocationError`
/// comes only when every draw failed or collided.
pub fn create_burn_wallet(store: &mut BurnStore, ctx: CreateBurnWallet) -> (r: Result<AccountId, ErrorCode>)
    requires
        old(store).wf(),
    ensures
        final(store).wf(),
        final(store).events() == old(store).events(),
        r matches Ok(id) ==> !old(store).has(id) && final(store).wallets() == old(store).wallets().push(
            BurnWallet { id, amount: ctx.initial_balance },
        ),
        r is Err ==> r == Err::<AccountId, ErrorCode>(ErrorCode::AllocationError)
            && final(store).wallets() == old(store).wallets(),
{
    let mut attempt: u32 = 0;
    loop
        invariant
            store.wf(),
            attempt < MAX_ID_ATTEMPTS,
            store.wallets() == old(store).wallets(),
            store.events() == old(store).events(),
        decreases MAX_ID_ATTEMPTS - attempt,
    {
        let drawn = draw_account_id();
        if let Some(r) = creation_attempt(store, drawn, ctx.initial_balance, attempt) {
            return r;
        }
        attempt = attempt + 1;
    }
}

/// The draw `drawn` gave an identifier that no account of `s` has.
pub open spec fn fresh_draw(s: BurnStore, drawn: Option<AccountId>) -> bool {
    drawn is Some && !s.has(drawn->0)
}

/// One attempt of account creation, given what was drawn (`None` when the
/// entropy source failed) and the attempt's number counted from 0. A fresh
/// identifier opens the account and ends creation with it; otherwise creation
/// goes on to the next attempt, or ends with `AllocationError` after the last
/// one (`None` means: try again).
pub fn creation_attempt(store: &mut BurnStore, drawn: Option<AccountId>, initial: u64, attempt: u32) -> (r: Option<Result<AccountId, ErrorCode>>)
    requires
        old(store).wf(),
        attempt < MAX_ID_ATTEMPTS,
    ensures
        final(store).wf(),
        final(store).events() == old(store).events(),
        fresh_draw(*old(store), drawn) ==> r == Some(Ok::<AccountId, ErrorCode>(drawn->0))
            && final(store).wallets() == old(store).wallets().push(BurnWallet { id: drawn->0, amount: initial }),
        !fresh_draw(*old(store), drawn) ==> final(store).wallets() == old(store).wallets()
            && r == (if attempt + 1 >= MAX_ID_ATTEMPTS {
                Some(Err::<AccountId, ErrorCode>(ErrorCode::AllocationError))
            } else {
                None::<Result<AccountId, ErrorCode>>
            }),
{
    if let Some(candidate) = drawn {
        if store.try_register(candidate, initial) {
            return Some(Ok(candidate));
        }
    }
    if attempt + 1 >= MAX_ID_ATTEMPTS {
        Some(Err(ErrorCode::AllocationError))
    } else {
        None
    }
}

/// Burns `ctx.amount` from the account `ctx.burn_wallet`, given the verifier's
/// verdict on the proof for that account and amount. The account must exist,
/// the proof must be accepted and the balance must cover the amount; otherwise
/// the balance is left as it was. Every attempt is appended to the audit log.
pub fn burn_funds(store: &mut BurnStore, ctx: BurnFunds, check: ProofCheck) -> (r: Result<u64, ErrorCode>)
    requires
        old(store).wf(),
    ensures
        final(store).wf(),
        r == burn_outcome(*old(store), ctx, check),
        r matches Ok(nb) ==> final(store).wallets() == old(store).wallets().update(
            old(store).slot(ctx.burn_wallet),
            BurnWallet { id: ctx.burn_wallet, amount: nb },
        ),
        r is Err ==> final(store).wallets() == old(store).wallets(),
        final(store).events() == old(store).events().push(
            BurnEvent { account: ctx.burn_wallet, amount: ctx.amount, outcome: r },
        ),
{
    let r = match store.find(ctx.burn_wallet) {
        None => Err(ErrorCode::AccountNotFound),
        Some(i) => {
            let current = store.lookup(ctx.burn_wallet);
            match current {
                Ok(w) => {
                    let out = apply_burn(w.amount, ctx.amount, check);
                    if let Ok(nb) = out {
                        store.set_amount(i, nb);
                    }
                    out
                },
                Err(e) => Err(e),
            }
        },
    };
    store.record(BurnEvent { account: ctx.burn_wallet, amount: ctx.amount, outcome: r });
    r
}

/// The balance left after the burn attempts `attempts` (each an amount and the
/// verdict on its proof) are applied one after another from `balance`.
pub open spec fn serial_balance(balance: u64, attempts: Seq<(u64, ProofCheck)>) -> u64
    decreases attempts.len(),
{
    if attempts.len() == 0 {
        balance
    } else {
        match serial_outcome(balance, attempts) {
            Ok(after) => after,
            Err(_) => serial_balance(balance, attempts.drop_last()),
        }
    }
}

/// The outcome of the last of the attempts `attempts` (a non-empty sequence),
/// applied after the ones before it.
pub open spec fn serial_outcome(balance: u64, attempts: Seq<(u64, ProofCheck)>) -> Result<u64, ErrorCode>
    decreases attempts.len(), 0nat,
{
    if attempts.len() == 0 {
        Err(ErrorCode::InvalidProof)
    } else {
        burn_step(
            serial_balance(balance, attempts.drop_last()),
            attempts.last().0,
            attempts.last().1,
        )
    }
}

/// Applies the burn attempts `attempts` to the account `id` one at a time, in
/// order, as a single writer serialises concurrent requests; returns the
/// outcome of each and records each in the audit log.
pub fn burn_queue(store: &mut BurnStore, id: AccountId, attempts: &Vec<(u64, ProofCheck)>) -> (r: Vec<Result<u64, ErrorCode>>)
    requires
        old(store).wf(),
    ensures
        final(store).wf(),
        r@.len() == attempts@.len(),
        !old(store).has(id) ==> final(store).wallets() == old(store).wallets()
            && forall|j: int| 0 <= j < r@.len() ==> #[trigger] r@[j] == Err::<u64, ErrorCode>(ErrorCode::AccountNotFound),
        old(store).has(id) ==> final(store).wallets() == old(store).wallets().update(
            old(store).slot(id),
            BurnWallet { id, amount: serial_balance(old(store).balance(id), attempts@) },
        ) && forall|j: int| 0 <= j < r@.len() ==> #[trigger] r@[j] == serial_outcome(
            old(store).balance(id),
            attempts@.take(j + 1),
        ),
        final(store).events().len() == old(store).events().len() + attempts@.len(),
        forall|i: int| 0 <= i < old(store).events().len() ==> #[trigger] final(store).events()[i] == old(store).events()[i],
        forall|j: int| 0 <= j < attempts@.len() ==> #[trigger] final(store).events()[old(store).events().len() + j] == (BurnEvent {
            account: id,
            amount: attempts@[j].0,
            outcome: r@[j],
        }),
{
    let ghost start = old(store).balance(id);
    let ghost pos = old(store).slot(id);
    let ghost n0 = old(store).events().len();
    let mut r: Vec<Result<u64, ErrorCode>> = Vec::new();
    let mut j: usize = 0;
    proof {
        if old(store).has(id) {
            assert(old(store).wallets()[pos].id == id);
            assert(attempts@.take(0) =~= Seq::<(u64, ProofCheck)>::empty());
            assert(store.wallets() =~= old(store).wallets().update(pos, BurnWallet { id, amount: start }));
        }
    }
    while j < attempts.len()
        invariant
            store.wf(),
            old(store).has(id) ==> 0 <= pos < old(store).wallets().len()
                && old(store).wallets()[pos].id == id && old(store).balance(id) == start,
            j <= attempts@.len(),
            r@.len() == j,
            !old(store).has(id) ==> store.wallets() == old(store).wallets()
                && forall|k: int| 0 <= k < j ==> #[trigger] r@[k] == Err::<u64, ErrorCode>(ErrorCode::AccountNotFound),
            old(store).has(id) ==> store.wallets() == old(store).wallets().update(
                pos,
                BurnWallet { id, amount: serial_balance(start, attempts@.take(j as int)) },
            ) && forall|k: int| 0 <= k < j ==> #[trigger] r@[k] == serial_outcome(start, attempts@.take(k + 1)),
            store.events().len() == n0 + j,
            forall|i: int| 0 <= i < n0 ==> #[trigger] store.events()[i] == old(store).events()[i],
            forall|k: int| 0 <= k < j ==> #[trigger] store.events()[n0 + k] == (BurnEvent {
                account: id,
                amount: attempts@[k].0,
                outcome: r@[k],
            }),
        decreases attempts@.len() - j,
    {
        let (amount, check) = attempts[j];
        proof {
            if old(store).has(id) {
                assert(store.wallets()[pos].id == id);
                store.lemma_slot_unique(pos);
                let next = attempts@.take(j + 1);
                assert(next.drop_last() =~= attempts@.take(j as int));
                assert(next.last() == (amount, check));
            }
        }
        let ghost before = *store;
        let out = burn_funds(store, BurnFunds { burn_wallet: id, amount }, check);
        proof {
            if old(store).has(id) {
                let next = attempts@.take(j + 1);
                assert(before.slot(id) == pos);
                assert(before.balance(id) == serial_balance(start, attempts@.take(j as int)));
                assert(out == serial_outcome(start, next));
                assert(store.wallets() =~= old(store).wallets().update(
                    pos,
                    BurnWallet { id, amount: serial_balance(start, next) },
                ));
            }
        }
        r.push(out);
        j = j + 1;
    }
    proof {
        assert(attempts@.take(attempts@.len() as int) =~= attempts@);
    }
    r
}

} // verus!
