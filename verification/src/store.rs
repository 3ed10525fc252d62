//! The account store: the authoritative mapping from account identity
//! to account record, with atomic single- and dual-record mutation.
//!
//! Records are held in one owned vector behind the engine; every
//! operation takes the store exclusively (`&mut self`), so each
//! mutation is one indivisible step: no other operation can observe a
//! state where only one leg of a transfer has been applied.

use vstd::prelude::*;
use vstd::pervasive::VecAdditionalExecFns;

use crate::errors::{CreateError, LedgerError, TransferError};

verus! {

/// One account record. The identity is the account's compressed
/// public-key bytes, unique within a store and immutable once created.
#[derive(Debug, PartialEq, Eq)]
pub struct Account {
    /// Compressed secp256k1 public key naming the account.
    pub id: Vec<u8>,
    /// Display name, chosen at creation.
    pub name: String,
    /// Current balance; mutated only by `atomic_transfer`.
    pub balance: u64,
    /// Whether the account is barred from transfers.
    pub is_frozen: bool,
}

/// The mathematical value of an account record.
#[verifier::ext_equal]
pub struct AccountV {
    pub id: Seq<u8>,
    pub name: Seq<char>,
    pub balance: u64,
    pub is_frozen: bool,
}

impl View for Account {
    type V = AccountV;

    open spec fn view(&self) -> AccountV {
        AccountV {
            id: self.id@,
            name: self.name@,
            balance: self.balance,
            is_frozen: self.is_frozen,
        }
    }
}

impl Account {
    /// A copy of this record.
    pub fn duplicate(&self) -> (r: Account)
        ensures
            r@ == self@,
    {
        let r = Account {
            id: copy_bytes(&self.id),
            name: self.name.clone(),
            balance: self.balance,
            is_frozen: self.is_frozen,
        };
        proof {
            assert(r@ =~= self@);
        }
        r
    }
}

/// A verified byte-for-byte copy of a vector.
pub fn copy_bytes(v: &Vec<u8>) -> (r: Vec<u8>)
    ensures
        r@ == v@,
{
    let mut r: Vec<u8> = Vec::new();
    let n = v.len();
    let mut i: usize = 0;
    while i < n
        invariant
            n == v@.len(),
            i <= n,
            r@ == v@.take(i as int),
        decreases n - i,
    {
        r.push(v[i]);
        proof {
            assert(r@ =~= v@.take(i + 1));
        }
        i += 1;
    }
    proof {
        assert(v@.take(n as int) =~= v@);
    }
    r
}

/// Whether two byte strings are equal.
pub fn bytes_eq(a: &Vec<u8>, b: &Vec<u8>) -> (r: bool)
    ensures
        r == (a@ == b@),
{
    if a.len() != b.len() {
        return false;
    }
    let n = a.len();
    let mut i: usize = 0;
    while i < n
        invariant
            n == a@.len(),
            a@.len() == b@.len(),
            i <= n,
            forall|j: int| 0 <= j < i ==> a@[j] == b@[j],
        decreases n - i,
    {
        if a[i] != b[i] {
            return false;
        }
        i += 1;
    }
    proof {
        assert(a@ =~= b@);
    }
    true
}

/// The account store.
pub struct Store {
    /// The account records; identities are pairwise distinct.
    pub accounts: Vec<Account>,
}

impl Store {
    /// Well-formedness: no two records share an identity.
    pub open spec fn wf(self) -> bool {
        forall|i: int, j: int|
            0 <= i < j < self.accounts@.len() ==> self.accounts@[i].id@ != self.accounts@[j].id@
    }

    /// Whether some record bears the identity `id`.
    pub open spec fn has(self, id: Seq<u8>) -> bool {
        exists|i: int| 0 <= i < self.accounts@.len() && self.accounts@[i].id@ == id
    }

    /// The position of the record bearing `id` (meaningful when `has`).
    pub open spec fn index_of(self, id: Seq<u8>) -> int {
        choose|i: int| 0 <= i < self.accounts@.len() && self.accounts@[i].id@ == id
    }

    /// The record bearing `id` (meaningful when `has`).
    pub open spec fn spec_get(self, id: Seq<u8>) -> AccountV {
        self.accounts@[self.index_of(id)]@
    }

    /// In a well-formed store, a record's position pins down `index_of`
    /// and `spec_get`.
    pub proof fn lemma_index_of(self, id: Seq<u8>, i: int)
        requires
            self.wf(),
            0 <= i < self.accounts@.len(),
            self.accounts@[i].id@ == id,
        ensures
            self.has(id),
            self.index_of(id) == i,
            self.spec_get(id) == self.accounts@[i]@,
    {
        assert(self.has(id));
        let j = self.index_of(id);
        if j != i {
            if j < i {
                assert(self.accounts@[j].id@ != self.accounts@[i].id@);
            } else {
                assert(self.accounts@[i].id@ != self.accounts@[j].id@);
            }
            assert(false);
        }
    }

    /// An empty store.
    pub fn new() -> (r: Store)
        ensures
            r.wf(),
            r.accounts@.len() == 0,
            forall|id: Seq<u8>| !r.has(id),
    {
        Store { accounts: Vec::new() }
    }

    /// The position of the record bearing `id`, if any.
    pub fn find(&self, id: &Vec<u8>) -> (r: Option<usize>)
        ensures
            match r {
                Some(i) => i < self.accounts@.len() && self.accounts@[i as int].id@ == id@,
                None => !self.has(id@),
            },
    {
        let n = self.accounts.len();
        let mut i: usize = 0;
        while i < n
            invariant
                n == self.accounts@.len(),
                i <= n,
                forall|j: int| 0 <= j < i ==> self.accounts@[j].id@ != id@,
            decreases n - i,
        {
            if bytes_eq(&self.accounts[i].id, id) {
                return Some(i);
            }
            i += 1;
        }
        None
    }

    /// Appending a record with a fresh identity: how the model maps
    /// change.
    proof fn lemma_push_frame(pre: Store, post: Store, a: Account)
        requires
            pre.wf(),
            !pre.has(a.id@),
            post.accounts@ == pre.accounts@.push(a),
        ensures
            post.wf(),
            post.has(a.id@),
            post.spec_get(a.id@) == a@,
            forall|oid: Seq<u8>| #![auto]
                oid != a.id@ ==> post.has(oid) == pre.has(oid),
            forall|oid: Seq<u8>| #![auto]
                pre.has(oid) ==> post.spec_get(oid) == pre.spec_get(oid),
    {
        let n = pre.accounts@.len() as int;
        assert forall|i: int, j: int|
            0 <= i < j < post.accounts@.len() implies post.accounts@[i].id@
            != post.accounts@[j].id@ by {
            if j < n {
            } else {
                assert(post.accounts@[j].id@ == a.id@);
                assert(pre.accounts@[i].id@ != a.id@);
            }
        }
        assert(post.accounts@[n].id@ == a.id@);
        post.lemma_index_of(a.id@, n);
        assert forall|oid: Seq<u8>| #![auto]
            oid != a.id@ implies post.has(oid) == pre.has(oid) by {
            if pre.has(oid) {
                let i = pre.index_of(oid);
                assert(post.accounts@[i].id@ == oid);
            }
            if post.has(oid) {
                let i = choose|i: int|
                    0 <= i < post.accounts@.len() && post.accounts@[i].id@ == oid;
                assert(i != n);
                assert(pre.accounts@[i].id@ == oid);
            }
        }
        assert forall|oid: Seq<u8>| #![auto]
            pre.has(oid) implies post.spec_get(oid) == pre.spec_get(oid) by {
            let i = pre.index_of(oid);
            pre.lemma_index_of(oid, i);
            post.lemma_index_of(oid, i);
        }
    }

    /// Replacing a record in place, keeping its identity: how the
    /// model maps change.
    proof fn lemma_update_frame(pre: Store, post: Store, i: int, a: Account)
        requires
            pre.wf(),
            0 <= i < pre.accounts@.len(),
            a.id@ == pre.accounts@[i].id@,
            post.accounts@ == pre.accounts@.update(i, a),
        ensures
            post.wf(),
            forall|oid: Seq<u8>| #![auto] post.has(oid) == pre.has(oid),
            post.spec_get(a.id@) == a@,
            forall|oid: Seq<u8>| #![auto]
                pre.has(oid) && oid != a.id@ ==> post.spec_get(oid) == pre.spec_get(oid),
    {
        assert forall|p: int, q: int|
            0 <= p < q < post.accounts@.len() implies post.accounts@[p].id@
            != post.accounts@[q].id@ by {
            assert(post.accounts@[p].id@ == pre.accounts@[p].id@);
            assert(post.accounts@[q].id@ == pre.accounts@[q].id@);
        }
        assert forall|oid: Seq<u8>| #![auto] post.has(oid) == pre.has(oid) by {
            if pre.has(oid) {
                let j = pre.index_of(oid);
                assert(post.accounts@[j].id@ == oid);
            }
            if post.has(oid) {
                let j = choose|j: int|
                    0 <= j < post.accounts@.len() && post.accounts@[j].id@ == oid;
                assert(pre.accounts@[j].id@ == oid);
            }
        }
        post.lemma_index_of(a.id@, i);
        assert forall|oid: Seq<u8>| #![auto]
            pre.has(oid) && oid != a.id@ implies post.spec_get(oid) == pre.spec_get(oid) by {
            let j = pre.index_of(oid);
            pre.lemma_index_of(oid, j);
            assert(j != i);
            assert(post.accounts@[j].id@ == oid);
            post.lemma_index_of(oid, j);
        }
    }

    /// Inserts a new record with the given identity, name and starting
    /// balance, not frozen; rejects an identity that is already taken.
    /// Returns a copy of the inserted record.
    pub fn create(&mut self, id: Vec<u8>, name: String, balance: u64) -> (r: Result<
        Account,
        CreateError,
    >)
        requires
            old(self).wf(),
        ensures
            final(self).wf(),
            old(self).has(id@) ==> {
                &&& r == Err::<Account, CreateError>(CreateError::IdentityExists)
                &&& final(self).accounts@ == old(self).accounts@
            },
            !old(self).has(id@) ==> {
                &&& (r matches Ok(a) && a@ == (AccountV {
                    id: id@,
                    name: name@,
                    balance,
                    is_frozen: false,
                }))
                &&& final(self).has(id@)
                &&& final(self).spec_get(id@) == (AccountV {
                    id: id@,
                    name: name@,
                    balance,
                    is_frozen: false,
                })
                &&& forall|oid: Seq<u8>| #![auto]
                    oid != id@ ==> final(self).has(oid) == old(self).has(oid)
                &&& forall|oid: Seq<u8>| #![auto]
                    old(self).has(oid) ==> final(self).spec_get(oid) == old(self).spec_get(oid)
                &&& final(self).accounts@.len() == old(self).accounts@.len() + 1
            },
    {
        match self.find(&id) {
            Some(_) => Err(CreateError::IdentityExists),
            None => {
                let a = Account { id, name, balance, is_frozen: false };
                let copy = a.duplicate();
                let ghost pre = *self;
                self.accounts.push(a);
                proof {
                    Store::lemma_push_frame(pre, *self, a);
                }
                Ok(copy)
            },
        }
    }

    /// A copy of the record bearing `id`, if any.
    pub fn get(&self, id: &Vec<u8>) -> (r: Option<Account>)
        requires
            self.wf(),
        ensures
            match r {
                Some(a) => self.has(id@) && a@ == self.spec_get(id@),
                None => !self.has(id@),
            },
    {
        match self.find(id) {
            Some(i) => {
                let a = self.accounts[i].duplicate();
                proof {
                    self.lemma_index_of(id@, i as int);
                }
                Some(a)
            },
            None => None,
        }
    }

    /// Sets the freeze flag of the record bearing `id`. Idempotent:
    /// reports `Ok(false)` (no change) when the flag already has the
    /// requested value, `Ok(true)` when it was toggled.
    pub fn set_frozen(&mut self, id: &Vec<u8>, frozen: bool) -> (r: Result<bool, LedgerError>)
        requires
            old(self).wf(),
        ensures
            final(self).wf(),
            !old(self).has(id@) ==> {
                &&& r == Err::<bool, LedgerError>(LedgerError::AccountNotFound)
                &&& final(self).accounts@ == old(self).accounts@
            },
            old(self).has(id@) && old(self).spec_get(id@).is_frozen == frozen ==> {
                &&& r == Ok::<bool, LedgerError>(false)
                &&& final(self).accounts@ == old(self).accounts@
            },
            old(self).has(id@) && old(self).spec_get(id@).is_frozen != frozen ==> {
                &&& r == Ok::<bool, LedgerError>(true)
                &&& forall|oid: Seq<u8>| #![auto] final(self).has(oid) == old(self).has(oid)
                &&& final(self).spec_get(id@) == (AccountV {
                    is_frozen: frozen,
                    ..old(self).spec_get(id@)
                })
                &&& forall|oid: Seq<u8>| #![auto]
                    old(self).has(oid) && oid != id@ ==> final(self).spec_get(oid) == old(
                        self,
                    ).spec_get(oid)
            },
    {
        match self.find(id) {
            None => Err(LedgerError::AccountNotFound),
            Some(i) => {
                proof {
                    self.lemma_index_of(id@, i as int);
                }
                if self.accounts[i].is_frozen == frozen {
                    Ok(false)
                } else {
                    let mut a = self.accounts[i].duplicate();
                    a.is_frozen = frozen;
                    let ghost pre = *self;
                    let ghost av = a;
                    self.accounts.set(i, a);
                    proof {
                        Store::lemma_update_frame(pre, *self, i as int, av);
                        assert(self.spec_get(id@) =~= (AccountV {
                            is_frozen: frozen,
                            ..pre.spec_get(id@)
                        }));
                    }
                    Ok(true)
                }
            },
        }
    }

    /// The outcome `atomic_transfer` owes on a given pre-state: the
    /// first failing balance condition in check order, else success.
    pub open spec fn spec_transfer_outcome(
        pre: Store,
        from: Seq<u8>,
        to: Seq<u8>,
        amount: u64,
    ) -> Result<(), TransferError> {
        if !pre.has(from) || !pre.has(to) {
            Err(TransferError::AccountNotFound)
        } else if pre.spec_get(from).balance < amount {
            Err(TransferError::InsufficientBalance)
        } else if pre.spec_get(to).balance + amount > u64::MAX {
            Err(TransferError::BalanceOverflow)
        } else {
            Ok(())
        }
    }

    /// How a settled transfer relates post-state to pre-state: the
    /// source is debited by exactly `amount`, the destination credited
    /// by exactly `amount`, every other record is untouched, and no
    /// record appears or disappears. A transfer whose source and
    /// destination coincide debits and credits the same record, which
    /// leaves it unchanged.
    pub open spec fn spec_transfer_applied(
        pre: Store,
        post: Store,
        from: Seq<u8>,
        to: Seq<u8>,
        amount: u64,
    ) -> bool {
        &&& forall|oid: Seq<u8>| #![auto] post.has(oid) == pre.has(oid)
        &&& (from == to ==> post.spec_get(from) == pre.spec_get(from))
        &&& (from != to ==> post.spec_get(from) == (AccountV {
            balance: (pre.spec_get(from).balance - amount) as u64,
            ..pre.spec_get(from)
        }))
        &&& (from != to ==> post.spec_get(to) == (AccountV {
            balance: (pre.spec_get(to).balance + amount) as u64,
            ..pre.spec_get(to)
        }))
        &&& forall|oid: Seq<u8>| #![auto]
            pre.has(oid) && oid != from && oid != to ==> post.spec_get(oid) == pre.spec_get(oid)
    }

    /// Moves `amount` from the record bearing `from` to the record
    /// bearing `to` as one indivisible step: both legs are applied, or
    /// neither is, and no interleaved observation is possible because
    /// the store is held exclusively for the whole call. Both balance
    /// checks are made against the same pre-state snapshot.
    pub fn atomic_transfer(&mut self, from: &Vec<u8>, to: &Vec<u8>, amount: u64) -> (r: Result<
        (),
        TransferError,
    >)
        requires
            old(self).wf(),
        ensures
            final(self).wf(),
            r == Store::spec_transfer_outcome(*old(self), from@, to@, amount),
            r is Ok ==> Store::spec_transfer_applied(
                *old(self),
                *final(self),
                from@,
                to@,
                amount,
            ),
            r is Err ==> final(self).accounts@ == old(self).accounts@,
    {
        let from_idx = match self.find(from) {
            Some(i) => i,
            None => {
                return Err(TransferError::AccountNotFound);
            },
        };
        let to_idx = match self.find(to) {
            Some(i) => i,
            None => {
                return Err(TransferError::AccountNotFound);
            },
        };
        proof {
            self.lemma_index_of(from@, from_idx as int);
            self.lemma_index_of(to@, to_idx as int);
        }
        let new_from_balance = match self.accounts[from_idx].balance.checked_sub(amount) {
            Some(b) => b,
            None => {
                return Err(TransferError::InsufficientBalance);
            },
        };
        let new_to_balance = match self.accounts[to_idx].balance.checked_add(amount) {
            Some(b) => b,
            None => {
                return Err(TransferError::BalanceOverflow);
            },
        };
        if from_idx == to_idx {
            // Both legs touch the same record; the debit and the
            // credit cancel, so the record keeps its balance.
            return Ok(());
        }
        proof {
            assert(from@ != to@);
        }
        let mut debited = self.accounts[from_idx].duplicate();
        debited.balance = new_from_balance;
        let ghost pre = *self;
        let ghost debited_v = debited;
        self.accounts.set(from_idx, debited);
        proof {
            Store::lemma_update_frame(pre, *self, from_idx as int, debited_v);
            self.lemma_index_of(to@, to_idx as int);
        }
        let mut credited = self.accounts[to_idx].duplicate();
        credited.balance = new_to_balance;
        let ghost mid = *self;
        let ghost credited_v = credited;
        self.accounts.set(to_idx, credited);
        proof {
            Store::lemma_update_frame(mid, *self, to_idx as int, credited_v);
            assert(self.spec_get(from@) =~= (AccountV {
                balance: (pre.spec_get(from@).balance - amount) as u64,
                ..pre.spec_get(from@)
            }));
            assert(self.spec_get(to@) =~= (AccountV {
                balance: (pre.spec_get(to@).balance + amount) as u64,
                ..pre.spec_get(to@)
            }));
        }
        Ok(())
    }
}

} // verus!
