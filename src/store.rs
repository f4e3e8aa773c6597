use vstd::prelude::*;
use crate::wallet::{AccountId, BurnWallet, BurnEvent, ErrorCode};

verus! {

/// No two wallets of `s` share an identifier.
pub open spec fn ids_distinct(s: Seq<BurnWallet>) -> bool {
    forall|i: int, j: int|
        0 <= i < s.len() && 0 <= j < s.len() && i != j ==> #[trigger] s[i].id != #[trigger] s[j].id
}

/// The account store: every burn account, in order of creation, and the audit
/// log of burn attempts.
pub struct BurnStore {
    wallets: Vec<BurnWallet>,
    events: Vec<BurnEvent>,
}

impl BurnStore {
    /// The accounts, in order of creation.
    pub closed spec fn wallets(self) -> Seq<BurnWallet> {
        self.wallets@
    }

    /// The audit log, oldest first.
    pub closed spec fn events(self) -> Seq<BurnEvent> {
        self.events@
    }

    /// Well-formed: identifiers are unique.
    pub open spec fn wf(self) -> bool {
        ids_distinct(self.wallets())
    }

    /// Some account has identifier `id`.
    pub open spec fn has(self, id: AccountId) -> bool {
        exists|i: int| 0 <= i < self.wallets().len() && #[trigger] self.wallets()[i].id == id
    }

    /// The position of the account with identifier `id` (meaningful when `has(id)`).
    pub open spec fn slot(self, id: AccountId) -> int {
        choose|i: int| 0 <= i < self.wallets().len() && #[trigger] self.wallets()[i].id == id
    }

    /// The balance of the account `id` (meaningful when `has(id)`).
    pub open spec fn balance(self, id: AccountId) -> u64 {
        self.wallets()[self.slot(id)].amount
    }

    /// What a lookup of `id` yields.
    pub open spec fn lookup_spec(self, id: AccountId) -> Result<BurnWallet, ErrorCode> {
        if self.has(id) {
            Ok(self.wallets()[self.slot(id)])
        } else {
            Err(ErrorCode::AccountNotFound)
        }
    }

    /// In a well-formed store the account at position `i` is the one `slot` names.
    pub proof fn lemma_slot_unique(self, i: int)
        requires
            self.wf(),
            0 <= i < self.wallets().len(),
        ensures
            self.has(self.wallets()[i].id),
            self.slot(self.wallets()[i].id) == i,
    {
        let id = self.wallets()[i].id;
        assert(self.wallets()[i].id == id);
        let j = self.slot(id);
        assert(self.wallets()[j].id == id);
    }

    /// An empty store with an empty audit log.
    pub fn new() -> (r: BurnStore)
        ensures
            r.wf(),
            r.wallets() == Seq::<BurnWallet>::empty(),
            r.events() == Seq::<BurnEvent>::empty(),
    {
        BurnStore { wallets: Vec::new(), events: Vec::new() }
    }

    /// The number of accounts.
    pub fn len(&self) -> (r: usize)
        ensures
            r == self.wallets().len(),
    {
        self.wallets.len()
    }

    /// The position of the account `id`, if there is one.
    pub(crate) fn find(&self, id: AccountId) -> (r: Option<usize>)
        requires
            self.wf(),
        ensures
            r is None <==> !self.has(id),
            r matches Some(i) ==> i < self.wallets().len() && self.slot(id) == i
                && self.wallets()[i as int].id == id,
    {
        let mut i: usize = 0;
        while i < self.wallets.len()
            invariant
                self.wf(),
                i <= self.wallets@.len(),
                forall|k: int| 0 <= k < i ==> #[trigger] self.wallets@[k].id != id,
            decreases self.wallets@.len() - i,
        {
            if self.wallets[i].id == id {
                proof {
                    self.lemma_slot_unique(i as int);
                }
                return Some(i);
            }
            i = i + 1;
        }
        None
    }

    /// The account with identifier `id`, or `AccountNotFound`.
    pub fn lookup(&self, id: AccountId) -> (r: Result<BurnWallet, ErrorCode>)
        requires
            self.wf(),
        ensures
            r == self.lookup_spec(id),
    {
        match self.find(id) {
            Some(i) => Ok(self.wallets[i]),
            None => Err(ErrorCode::AccountNotFound),
        }
    }

    /// The identifiers of all accounts, in order of creation.
    pub fn ids(&self) -> (r: Vec<AccountId>)
        ensures
            r@.len() == self.wallets().len(),
            forall|i: int| 0 <= i < r@.len() ==> #[trigger] r@[i] == self.wallets()[i].id,
    {
        let mut r: Vec<AccountId> = Vec::new();
        let mut i: usize = 0;
        while i < self.wallets.len()
            invariant
                i <= self.wallets@.len(),
                r@.len() == i,
                forall|k: int| 0 <= k < i ==> #[trigger] r@[k] == self.wallets@[k].id,
            decreases self.wallets@.len() - i,
        {
            r.push(self.wallets[i].id);
            i = i + 1;
        }
        r
    }

    /// The audit log, oldest first.
    pub fn audit_log(&self) -> (r: &Vec<BurnEvent>)
        ensures
            r@ == self.events(),
    {
        &self.events
    }

    /// Adds an account `candidate` with balance `initial` when no account has
    /// that identifier yet; returns whether it was added.
    pub fn try_register(&mut self, candidate: AccountId, initial: u64) -> (r: bool)
        requires
            old(self).wf(),
        ensures
            final(self).wf(),
            r == !old(self).has(candidate),
            r ==> final(self).wallets() == old(self).wallets().push(
                BurnWallet { id: candidate, amount: initial },
            ),
            !r ==> final(self).wallets() == old(self).wallets(),
            final(self).events() == old(self).events(),
    {
        match self.find(candidate) {
            Some(_) => false,
            None => {
                self.wallets.push(BurnWallet { id: candidate, amount: initial });
                true
            },
        }
    }

    /// Sets the balance of the account at position `i` to `amount`.
    pub(crate) fn set_amount(&mut self, i: usize, amount: u64)
        requires
            old(self).wf(),
            i < old(self).wallets().len(),
        ensures
            final(self).wf(),
            final(self).wallets() == old(self).wallets().update(
                i as int,
                BurnWallet { id: old(self).wallets()[i as int].id, amount },
            ),
            final(self).events() == old(self).events(),
    {
        let id = self.wallets[i].id;
        self.wallets.set(i, BurnWallet { id, amount });
        assert(ids_distinct(self.wallets@)) by {
            assert forall|a: int, b: int|
                0 <= a < self.wallets@.len() && 0 <= b < self.wallets@.len() && a != b
                implies self.wallets@[a].id != self.wallets@[b].id by {
                assert(self.wallets@[a].id == old(self).wallets@[a].id);
                assert(self.wallets@[b].id == old(self).wallets@[b].id);
            }
        }
    }

    /// Appends `ev` to the audit log.
    pub(crate) fn record(&mut self, ev: BurnEvent)
        ensures
            final(self).wallets() == old(self).wallets(),
            final(self).events() == old(self).events().push(ev),
    {
        self.events.push(ev);
    }
}

} // verus!
