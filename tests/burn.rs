use private_burn::{
    apply_burn, assemble_id, burn_funds, burn_queue, create_burn_wallet, creation_attempt,
    AccountId, BurnFunds, BurnStore, CreateBurnWallet, ErrorCode, ProofCheck, MAX_ID_ATTEMPTS,
};

fn open(store: &mut BurnStore, balance: u64) -> AccountId {
    create_burn_wallet(store, CreateBurnWallet { initial_balance: balance }).expect("fresh id")
}

fn balance(store: &BurnStore, id: AccountId) -> u64 {
    store.lookup(id).expect("account exists").amount
}

fn burn(store: &mut BurnStore, id: AccountId, amount: u64, check: ProofCheck) -> Result<u64, ErrorCode> {
    burn_funds(store, BurnFunds { burn_wallet: id, amount }, check)
}

#[test]
fn scenario_burn_sequence() {
    let mut store = BurnStore::new();
    let id = open(&mut store, 1000);
    assert_eq!(burn(&mut store, id, 500, ProofCheck::Valid), Ok(500));
    assert_eq!(balance(&store, id), 500);
    assert_eq!(burn(&mut store, id, 600, ProofCheck::Valid), Err(ErrorCode::InsufficientBalance));
    assert_eq!(balance(&store, id), 500);
    assert_eq!(burn(&mut store, id, 500, ProofCheck::Invalid), Err(ErrorCode::InvalidProof));
    assert_eq!(balance(&store, id), 500);
    assert_eq!(burn(&mut store, id, 500, ProofCheck::Valid), Ok(0));
    assert_eq!(balance(&store, id), 0);
}

#[test]
fn create_sets_initial_balance() {
    let mut store = BurnStore::new();
    let id = open(&mut store, 1_000_000);
    assert_eq!(store.len(), 1);
    let w = store.lookup(id).unwrap();
    assert_eq!(w.id, id);
    assert_eq!(w.amount, 1_000_000);
}

#[test]
fn overdraw_leaves_balance() {
    let mut store = BurnStore::new();
    let id = open(&mut store, 10);
    assert_eq!(burn(&mut store, id, 11, ProofCheck::Valid), Err(ErrorCode::InsufficientBalance));
    assert_eq!(burn(&mut store, id, u64::MAX, ProofCheck::Valid), Err(ErrorCode::InsufficientBalance));
    assert_eq!(balance(&store, id), 10);
}

#[test]
fn zero_balance_accepts_zero_only() {
    let mut store = BurnStore::new();
    let id = open(&mut store, 0);
    assert_eq!(burn(&mut store, id, 1, ProofCheck::Valid), Err(ErrorCode::InsufficientBalance));
    assert_eq!(burn(&mut store, id, 0, ProofCheck::Valid), Ok(0));
    assert_eq!(balance(&store, id), 0);
}

#[test]
fn largest_balance_burns_exactly() {
    let mut store = BurnStore::new();
    let id = open(&mut store, u64::MAX);
    assert_eq!(burn(&mut store, id, u64::MAX, ProofCheck::Valid), Ok(0));
    assert_eq!(balance(&store, id), 0);
}

#[test]
fn invalid_and_faulted_proofs_rejected() {
    let mut store = BurnStore::new();
    let id = open(&mut store, 100);
    for amount in [0u64, 1, 100, 101, u64::MAX] {
        assert_eq!(burn(&mut store, id, amount, ProofCheck::Invalid), Err(ErrorCode::InvalidProof));
        assert_eq!(burn(&mut store, id, amount, ProofCheck::Faulted), Err(ErrorCode::InvalidProof));
    }
    assert_eq!(balance(&store, id), 100);
}

#[test]
fn unknown_account_not_found() {
    let mut store = BurnStore::new();
    let _ = open(&mut store, 5);
    let unknown = AccountId { w0: 1, w1: 2, w2: 3, w3: 4 };
    let unknown = if store.lookup(unknown).is_ok() { AccountId { w0: 5, w1: 6, w2: 7, w3: 8 } } else { unknown };
    assert_eq!(store.lookup(unknown), Err(ErrorCode::AccountNotFound));
    assert_eq!(burn(&mut store, unknown, 1, ProofCheck::Valid), Err(ErrorCode::AccountNotFound));
}

#[test]
fn identifiers_are_distinct() {
    let mut store = BurnStore::new();
    let m = 50;
    for i in 0..m {
        open(&mut store, i);
    }
    let ids = store.ids();
    assert_eq!(ids.len(), m as usize);
    for i in 0..ids.len() {
        for j in (i + 1)..ids.len() {
            assert_ne!(ids[i], ids[j]);
        }
    }
}

#[test]
fn repeated_lookups_agree() {
    let mut store = BurnStore::new();
    let id = open(&mut store, 42);
    let first = store.lookup(id);
    let second = store.lookup(id);
    assert_eq!(first, second);
    let _ = burn(&mut store, id, 43, ProofCheck::Valid);
    assert_eq!(store.lookup(id), first);
    let _ = burn(&mut store, id, 2, ProofCheck::Valid);
    assert_eq!(store.lookup(id), store.lookup(id));
    assert_eq!(balance(&store, id), 40);
}

#[test]
fn equal_burns_that_fit_all_succeed() {
    let mut store = BurnStore::new();
    let id = open(&mut store, 1000);
    for _ in 0..10 {
        assert!(burn(&mut store, id, 100, ProofCheck::Valid).is_ok());
    }
    assert_eq!(balance(&store, id), 0);
}

#[test]
fn equal_burns_beyond_balance_partly_succeed() {
    let mut store = BurnStore::new();
    let id = open(&mut store, 1000);
    let results: Vec<_> = (0..10).map(|_| burn(&mut store, id, 300, ProofCheck::Valid)).collect();
    assert_eq!(results.iter().filter(|r| r.is_ok()).count(), 3);
    assert_eq!(&results[..3], &[Ok(700), Ok(400), Ok(100)]);
    assert!(results[3..].iter().all(|r| *r == Err(ErrorCode::InsufficientBalance)));
    assert_eq!(balance(&store, id), 100);
}

#[test]
fn burns_on_other_accounts_are_independent() {
    let mut store = BurnStore::new();
    let a = open(&mut store, 10);
    let b = open(&mut store, 20);
    assert_eq!(burn(&mut store, a, 4, ProofCheck::Valid), Ok(6));
    assert_eq!(balance(&store, b), 20);
    assert_eq!(burn(&mut store, b, 20, ProofCheck::Valid), Ok(0));
    assert_eq!(balance(&store, a), 6);
}

#[test]
fn audit_log_records_every_attempt() {
    let mut store = BurnStore::new();
    let id = open(&mut store, 50);
    let _ = burn(&mut store, id, 20, ProofCheck::Valid);
    let _ = burn(&mut store, id, 20, ProofCheck::Faulted);
    let _ = burn(&mut store, id, 40, ProofCheck::Valid);
    let log = store.audit_log();
    assert_eq!(log.len(), 3);
    assert_eq!(log[0].account, id);
    assert_eq!(log[0].amount, 20);
    assert_eq!(log[0].outcome, Ok(30));
    assert_eq!(log[1].outcome, Err(ErrorCode::InvalidProof));
    assert_eq!(log[2].amount, 40);
    assert_eq!(log[2].outcome, Err(ErrorCode::InsufficientBalance));
}

#[test]
fn apply_burn_decides() {
    assert_eq!(apply_burn(1000, 500, ProofCheck::Valid), Ok(500));
    assert_eq!(apply_burn(500, 600, ProofCheck::Valid), Err(ErrorCode::InsufficientBalance));
    assert_eq!(apply_burn(500, 500, ProofCheck::Invalid), Err(ErrorCode::InvalidProof));
    assert_eq!(apply_burn(500, 500, ProofCheck::Faulted), Err(ErrorCode::InvalidProof));
    assert_eq!(apply_burn(500, 500, ProofCheck::Valid), Ok(0));
}

#[test]
fn verifier_outcomes_map_to_checks() {
    assert_eq!(ProofCheck::from_verifier(Some(true)), ProofCheck::Valid);
    assert_eq!(ProofCheck::from_verifier(Some(false)), ProofCheck::Invalid);
    assert_eq!(ProofCheck::from_verifier(None), ProofCheck::Faulted);
}

#[test]
fn queue_of_equal_burns_that_fit() {
    let mut store = BurnStore::new();
    let id = open(&mut store, 1000);
    let attempts = vec![(250u64, ProofCheck::Valid); 4];
    let r = burn_queue(&mut store, id, &attempts);
    assert_eq!(r, vec![Ok(750), Ok(500), Ok(250), Ok(0)]);
    assert_eq!(balance(&store, id), 0);
    assert_eq!(store.audit_log().len(), 4);
}

#[test]
fn queue_of_equal_burns_beyond_balance() {
    let mut store = BurnStore::new();
    let id = open(&mut store, 1000);
    let attempts = vec![(300u64, ProofCheck::Valid); 5];
    let r = burn_queue(&mut store, id, &attempts);
    assert_eq!(
        r,
        vec![
            Ok(700),
            Ok(400),
            Ok(100),
            Err(ErrorCode::InsufficientBalance),
            Err(ErrorCode::InsufficientBalance)
        ]
    );
    assert_eq!(balance(&store, id), 100);
}

#[test]
fn queue_of_mixed_attempts() {
    let mut store = BurnStore::new();
    let id = open(&mut store, 1000);
    let other = open(&mut store, 7);
    let attempts = vec![
        (500u64, ProofCheck::Valid),
        (600, ProofCheck::Valid),
        (500, ProofCheck::Invalid),
        (100, ProofCheck::Faulted),
        (500, ProofCheck::Valid),
    ];
    let r = burn_queue(&mut store, id, &attempts);
    assert_eq!(
        r,
        vec![
            Ok(500),
            Err(ErrorCode::InsufficientBalance),
            Err(ErrorCode::InvalidProof),
            Err(ErrorCode::InvalidProof),
            Ok(0)
        ]
    );
    assert_eq!(balance(&store, id), 0);
    assert_eq!(balance(&store, other), 7);
    let log = store.audit_log();
    assert_eq!(log.len(), 5);
    assert_eq!(log[4].amount, 500);
    assert_eq!(log[4].outcome, Ok(0));
}

#[test]
fn queue_on_unknown_account() {
    let mut store = BurnStore::new();
    let id = open(&mut store, 3);
    let unknown = if id == (AccountId { w0: 9, w1: 9, w2: 9, w3: 9 }) {
        AccountId { w0: 8, w1: 8, w2: 8, w3: 8 }
    } else {
        AccountId { w0: 9, w1: 9, w2: 9, w3: 9 }
    };
    let r = burn_queue(&mut store, unknown, &vec![(1u64, ProofCheck::Valid); 2]);
    assert_eq!(r, vec![Err(ErrorCode::AccountNotFound); 2]);
    assert_eq!(balance(&store, id), 3);
}

#[test]
fn assemble_id_uses_all_words() {
    assert_eq!(
        assemble_id(Some(1), Some(2), Some(3), Some(4)),
        Some(AccountId { w0: 1, w1: 2, w2: 3, w3: 4 })
    );
    assert_eq!(assemble_id(Some(1), None, Some(3), Some(4)), None);
    assert_eq!(assemble_id(None, None, None, None), None);
}

#[test]
fn creation_attempt_decides() {
    let mut store = BurnStore::new();
    let a = AccountId { w0: 1, w1: 0, w2: 0, w3: 0 };
    assert_eq!(creation_attempt(&mut store, Some(a), 70, 0), Some(Ok(a)));
    assert_eq!(balance(&store, a), 70);
    assert_eq!(creation_attempt(&mut store, Some(a), 5, 0), None);
    assert_eq!(creation_attempt(&mut store, None, 5, 0), None);
    assert_eq!(
        creation_attempt(&mut store, Some(a), 5, MAX_ID_ATTEMPTS - 1),
        Some(Err(ErrorCode::AllocationError))
    );
    assert_eq!(
        creation_attempt(&mut store, None, 5, MAX_ID_ATTEMPTS - 1),
        Some(Err(ErrorCode::AllocationError))
    );
    assert_eq!(store.len(), 1);
    assert_eq!(balance(&store, a), 70);
}
