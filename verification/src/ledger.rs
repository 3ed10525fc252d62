//! The ledger engine: the account store together with the history log
//! and the transfer authorization and application pipeline.
//!
//! Every mutating operation takes the engine exclusively (`&mut self`),
//! so authorization checks and the balance mutation of one transfer
//! form a single critical section: no other operation can interleave
//! between "balance verified sufficient" and "balance debited".

use vstd::prelude::*;

use crate::crypto::{generate_keypair, pubkey_of, sha256_of, sig_ok, verify_signature};
use crate::errors::{CreateError, FrozenSide, LedgerError, TransferError};
use crate::history::{ActionType, HistoryEntry, HistoryEntryV, spec_history_of};
use crate::message::{spec_transfer_message, transfer_message_hash};
use crate::store::{Account, AccountV, Store, copy_bytes};

verus! {

/// A signed transfer request: an immutable value object living for one
/// authorization-and-application cycle.
pub struct TransferRequest {
    /// Identity of the account to debit.
    pub from_account: Vec<u8>,
    /// Identity of the account to credit.
    pub to_account: Vec<u8>,
    /// Amount to move.
    pub amount: u64,
    /// Caller-supplied replay distinguisher; part of the signed
    /// message. The engine does not record nonces, so replaying an
    /// identical signed request is not rejected.
    pub nonce: u64,
    /// Compact-encoded ECDSA signature over the canonical message.
    pub signature: Vec<u8>,
}

/// The mathematical value of a transfer request.
#[verifier::ext_equal]
pub struct TransferRequestV {
    pub from_account: Seq<u8>,
    pub to_account: Seq<u8>,
    pub amount: u64,
    pub nonce: u64,
    pub signature: Seq<u8>,
}

impl View for TransferRequest {
    type V = TransferRequestV;

    open spec fn view(&self) -> TransferRequestV {
        TransferRequestV {
            from_account: self.from_account@,
            to_account: self.to_account@,
            amount: self.amount,
            nonce: self.nonce,
            signature: self.signature@,
        }
    }
}

/// The read-only authorization verdict on a transfer, given pre-state
/// snapshots of the two accounts and the canonical message digest:
/// the first failing condition in check order, else success. Balance
/// conditions are checked later, against the same snapshot, by the
/// applier.
pub open spec fn spec_verify_conditions(
    t: TransferRequestV,
    from: AccountV,
    to: AccountV,
    digest: Seq<u8>,
) -> Result<(), TransferError> {
    if from.is_frozen {
        Err(TransferError::FrozenAccount(FrozenSide::Source))
    } else if to.is_frozen {
        Err(TransferError::FrozenAccount(FrozenSide::Destination))
    } else if !sig_ok(from.id, digest, t.signature) {
        Err(TransferError::InvalidSignature)
    } else {
        Ok(())
    }
}

/// The ledger engine: account store, history log, and a logical clock
/// that timestamps settled actions.
pub struct Ledger {
    /// The authoritative account records.
    pub store: Store,
    /// Append-only log of settled actions, in settlement order.
    pub history: Vec<HistoryEntry>,
    /// Logical time: the timestamp the next settled action receives.
    /// Never decreases.
    pub clock: u64,
}

impl Ledger {
    /// The history log as a sequence of mathematical entry values.
    pub open spec fn spec_log(self) -> Seq<HistoryEntryV> {
        self.history@.map_values(|e: HistoryEntry| e@)
    }

    /// Well-formedness: the store's identities are distinct, log
    /// timestamps are non-decreasing, and no logged timestamp is ahead
    /// of the clock.
    pub open spec fn wf(self) -> bool {
        &&& self.store.wf()
        &&& forall|i: int, j: int|
            0 <= i <= j < self.spec_log().len() ==> self.spec_log()[i].timestamp
                <= self.spec_log()[j].timestamp
        &&& forall|i: int|
            0 <= i < self.spec_log().len() ==> #[trigger] self.spec_log()[i].timestamp
                <= self.clock
    }

    /// The verdict the whole transfer pipeline owes on a given
    /// pre-state: the first failing condition in check order
    /// (resolution, source frozen, destination frozen, signature,
    /// insufficient balance, overflow), else success.
    pub open spec fn spec_transfer_decision(self, t: TransferRequestV) -> Result<
        (),
        TransferError,
    > {
        if !self.store.has(t.from_account) || !self.store.has(t.to_account) {
            Err(TransferError::AccountNotFound)
        } else {
            let from = self.store.spec_get(t.from_account);
            let to = self.store.spec_get(t.to_account);
            let digest = sha256_of(
                spec_transfer_message(t.from_account, t.to_account, t.amount, t.nonce),
            );
            if from.is_frozen {
                Err(TransferError::FrozenAccount(FrozenSide::Source))
            } else if to.is_frozen {
                Err(TransferError::FrozenAccount(FrozenSide::Destination))
            } else if !sig_ok(from.id, digest, t.signature) {
                Err(TransferError::InvalidSignature)
            } else if from.balance < t.amount {
                Err(TransferError::InsufficientBalance)
            } else if to.balance + t.amount > u64::MAX {
                Err(TransferError::BalanceOverflow)
            } else {
                Ok(())
            }
        }
    }

    /// An empty ledger.
    pub fn new() -> (r: Ledger)
        ensures
            r.wf(),
            r.store.accounts@.len() == 0,
            forall|id: Seq<u8>| !r.store.has(id),
            r.spec_log().len() == 0,
    {
        Ledger { store: Store::new(), history: Vec::new(), clock: 0 }
    }

    /// Appends one settled action to the log, timestamped with the
    /// current clock, and advances the clock.
    fn append_entry(&mut self, action: ActionType, from: &Vec<u8>, to: &Vec<u8>, amount: u64)
        requires
            old(self).wf(),
        ensures
            final(self).wf(),
            final(self).store == old(self).store,
            final(self).spec_log() == old(self).spec_log().push(
                HistoryEntryV {
                    action,
                    timestamp: old(self).clock,
                    from: from@,
                    to: to@,
                    amount,
                },
            ),
            final(self).clock >= old(self).clock,
    {
        let e = HistoryEntry {
            action,
            timestamp: self.clock,
            from: copy_bytes(from),
            to: copy_bytes(to),
            amount,
        };
        self.history.push(e);
        if self.clock < u64::MAX {
            self.clock = self.clock + 1;
        }
        proof {
            assert(self.spec_log() =~= old(self).spec_log().push(
                HistoryEntryV {
                    action,
                    timestamp: old(self).clock,
                    from: from@,
                    to: to@,
                    amount,
                },
            ));
        }
    }

    /// Creates an account whose identity is supplied by the caller
    /// (who then never hands the engine any secret material). Rejects
    /// an identity that already names an account; otherwise inserts
    /// the record with the given name and starting balance, unfrozen,
    /// logs the creation, and returns a copy of the new record.
    pub fn create_account_with_identity(
        &mut self,
        name: String,
        balance: u64,
        id: Vec<u8>,
    ) -> (r: Result<Account, CreateError>)
        requires
            old(self).wf(),
        ensures
            final(self).wf(),
            old(self).store.has(id@) ==> {
                &&& r == Err::<Account, CreateError>(CreateError::IdentityExists)
                &&& final(self).store.accounts@ == old(self).store.accounts@
                &&& final(self).spec_log() == old(self).spec_log()
            },
            !old(self).store.has(id@) ==> {
                &&& (r matches Ok(a) && a@ == (AccountV {
                    id: id@,
                    name: name@,
                    balance,
                    is_frozen: false,
                }))
                &&& final(self).store.has(id@)
                &&& final(self).store.spec_get(id@) == (AccountV {
                    id: id@,
                    name: name@,
                    balance,
                    is_frozen: false,
                })
                &&& forall|oid: Seq<u8>| #![auto]
                    oid != id@ ==> final(self).store.has(oid) == old(self).store.has(oid)
                &&& forall|oid: Seq<u8>| #![auto]
                    old(self).store.has(oid) ==> final(self).store.spec_get(oid) == old(
                        self,
                    ).store.spec_get(oid)
                &&& final(self).spec_log() == old(self).spec_log().push(
                    HistoryEntryV {
                        action: ActionType::CreateAccount,
                        timestamp: old(self).clock,
                        from: id@,
                        to: id@,
                        amount: 0,
                    },
                )
            },
    {
        match self.store.create(id, name, balance) {
            Err(e) => Err(e),
            Ok(a) => {
                self.append_entry(ActionType::CreateAccount, &a.id, &a.id, 0);
                Ok(a)
            },
        }
    }

    /// Creates an account with a freshly generated secp256k1 keypair:
    /// the compressed public key becomes the account's identity and
    /// the secret scalar is returned to the caller once, never
    /// retained by the engine. Fails only if the generated identity is
    /// already taken (vanishingly unlikely), leaving the ledger
    /// unchanged.
    pub fn create_account(&mut self, name: String, balance: u64) -> (r: Result<
        (Account, Vec<u8>),
        CreateError,
    >)
        requires
            old(self).wf(),
        ensures
            final(self).wf(),
            r matches Ok(p) ==> {
                &&& p.0@.id.len() == 33
                &&& p.1@.len() == 32
                &&& p.0@.id == pubkey_of(p.1@)
                &&& !old(self).store.has(p.0@.id)
                &&& p.0@ == (AccountV {
                    id: p.0@.id,
                    name: name@,
                    balance,
                    is_frozen: false,
                })
                &&& final(self).store.has(p.0@.id)
                &&& final(self).store.spec_get(p.0@.id) == p.0@
                &&& forall|oid: Seq<u8>| #![auto]
                    oid != p.0@.id ==> final(self).store.has(oid) == old(self).store.has(oid)
                &&& forall|oid: Seq<u8>| #![auto]
                    old(self).store.has(oid) ==> final(self).store.spec_get(oid) == old(
                        self,
                    ).store.spec_get(oid)
                &&& final(self).spec_log() == old(self).spec_log().push(
                    HistoryEntryV {
                        action: ActionType::CreateAccount,
                        timestamp: old(self).clock,
                        from: p.0@.id,
                        to: p.0@.id,
                        amount: 0,
                    },
                )
            },
            r is Err ==> {
                &&& r == Err::<(Account, Vec<u8>), CreateError>(CreateError::IdentityExists)
                &&& final(self).store.accounts@ == old(self).store.accounts@
                &&& final(self).spec_log() == old(self).spec_log()
                &&& exists|i: int|
                    0 <= i < old(self).store.accounts@.len() && (
                    #[trigger] old(self).store.accounts@[i].id@).len() == 33
            },
    {
        let (public_key, secret_key) = generate_keypair();
        let ghost pk = public_key@;
        match self.create_account_with_identity(name, balance, public_key) {
            Err(e) => {
                // A collision: the freshly generated 33-byte identity
                // already names a stored record.
                proof {
                    assert(old(self).store.has(pk));
                    let i = choose|i: int|
                        0 <= i < old(self).store.accounts@.len() && old(
                            self,
                        ).store.accounts@[i].id@ == pk;
                    assert((old(self).store.accounts@[i].id@).len() == 33);
                }
                Err(e)
            },
            Ok(a) => Ok((a, secret_key)),
        }
    }

    /// A copy of the account named `id`, or `None` if no account
    /// bears that identity. Read-only.
    pub fn get_account(&self, id: &Vec<u8>) -> (r: Option<Account>)
        requires
            self.wf(),
        ensures
            match r {
                Some(a) => self.store.has(id@) && a@ == self.store.spec_get(id@),
                None => !self.store.has(id@),
            },
    {
        self.store.get(id)
    }

    /// Freezes the account named `id`, barring it from transfers.
    /// Idempotent: freezing an already-frozen account reports
    /// `Ok(false)` and changes nothing; a change is logged.
    pub fn freeze_account(&mut self, id: &Vec<u8>) -> (r: Result<bool, LedgerError>)
        requires
            old(self).wf(),
        ensures
            final(self).wf(),
            !old(self).store.has(id@) ==> {
                &&& r == Err::<bool, LedgerError>(LedgerError::AccountNotFound)
                &&& final(self).store.accounts@ == old(self).store.accounts@
                &&& final(self).spec_log() == old(self).spec_log()
            },
            old(self).store.has(id@) && old(self).store.spec_get(id@).is_frozen ==> {
                &&& r == Ok::<bool, LedgerError>(false)
                &&& final(self).store.accounts@ == old(self).store.accounts@
                &&& final(self).spec_log() == old(self).spec_log()
            },
            old(self).store.has(id@) && !old(self).store.spec_get(id@).is_frozen ==> {
                &&& r == Ok::<bool, LedgerError>(true)
                &&& forall|oid: Seq<u8>| #![auto]
                    final(self).store.has(oid) == old(self).store.has(oid)
                &&& final(self).store.spec_get(id@) == (AccountV {
                    is_frozen: true,
                    ..old(self).store.spec_get(id@)
                })
                &&& forall|oid: Seq<u8>| #![auto]
                    old(self).store.has(oid) && oid != id@ ==> final(self).store.spec_get(oid)
                        == old(self).store.spec_get(oid)
                &&& final(self).spec_log() == old(self).spec_log().push(
                    HistoryEntryV {
                        action: ActionType::FreezeAccount,
                        timestamp: old(self).clock,
                        from: id@,
                        to: id@,
                        amount: 0,
                    },
                )
            },
    {
        match self.store.set_frozen(id, true) {
            Err(e) => Err(e),
            Ok(false) => Ok(false),
            Ok(true) => {
                self.append_entry(ActionType::FreezeAccount, id, id, 0);
                Ok(true)
            },
        }
    }

    /// Unfreezes the account named `id`. Idempotent: unfreezing an
    /// account that is not frozen reports `Ok(false)` and changes
    /// nothing; a change is logged.
    pub fn unfreeze_account(&mut self, id: &Vec<u8>) -> (r: Result<bool, LedgerError>)
        requires
            old(self).wf(),
        ensures
            final(self).wf(),
            !old(self).store.has(id@) ==> {
                &&& r == Err::<bool, LedgerError>(LedgerError::AccountNotFound)
                &&& final(self).store.accounts@ == old(self).store.accounts@
                &&& final(self).spec_log() == old(self).spec_log()
            },
            old(self).store.has(id@) && !old(self).store.spec_get(id@).is_frozen ==> {
                &&& r == Ok::<bool, LedgerError>(false)
                &&& final(self).store.accounts@ == old(self).store.accounts@
                &&& final(self).spec_log() == old(self).spec_log()
            },
            old(self).store.has(id@) && old(self).store.spec_get(id@).is_frozen ==> {
                &&& r == Ok::<bool, LedgerError>(true)
                &&& forall|oid: Seq<u8>| #![auto]
                    final(self).store.has(oid) == old(self).store.has(oid)
                &&& final(self).store.spec_get(id@) == (AccountV {
                    is_frozen: false,
                    ..old(self).store.spec_get(id@)
                })
                &&& forall|oid: Seq<u8>| #![auto]
                    old(self).store.has(oid) && oid != id@ ==> final(self).store.spec_get(oid)
                        == old(self).store.spec_get(oid)
                &&& final(self).spec_log() == old(self).spec_log().push(
                    HistoryEntryV {
                        action: ActionType::UnfreezeAccount,
                        timestamp: old(self).clock,
                        from: id@,
                        to: id@,
                        amount: 0,
                    },
                )
            },
    {
        match self.store.set_frozen(id, false) {
            Err(e) => Err(e),
            Ok(false) => Ok(false),
            Ok(true) => {
                self.append_entry(ActionType::UnfreezeAccount, id, id, 0);
                Ok(true)
            },
        }
    }

    /// The digest of the canonical message a transfer request must
    /// have been signed over.
    pub fn create_transfer_message_hash(&self, transfer: &TransferRequest) -> (r: Vec<u8>)
        ensures
            r@ == sha256_of(
                spec_transfer_message(
                    transfer@.from_account,
                    transfer@.to_account,
                    transfer@.amount,
                    transfer@.nonce,
                ),
            ),
            r@.len() == 32,
    {
        transfer_message_hash(
            &transfer.from_account,
            &transfer.to_account,
            transfer.amount,
            transfer.nonce,
        )
    }

    /// The read-only authorization checks of a transfer, against
    /// pre-state snapshots of the two accounts: freeze state first
    /// (source before destination), then signature verification
    /// against the source identity's key. Fail-fast: the first
    /// failing condition is returned.
    pub fn verify_transfer_conditions(
        &self,
        transfer: &TransferRequest,
        from_account: &Account,
        to_account: &Account,
        message_hash: &Vec<u8>,
    ) -> (r: Result<(), TransferError>)
        ensures
            r == spec_verify_conditions(transfer@, from_account@, to_account@, message_hash@),
    {
        if from_account.is_frozen {
            return Err(TransferError::FrozenAccount(FrozenSide::Source));
        }
        if to_account.is_frozen {
            return Err(TransferError::FrozenAccount(FrozenSide::Destination));
        }
        if !verify_signature(&from_account.id, message_hash, &transfer.signature) {
            return Err(TransferError::InvalidSignature);
        }
        Ok(())
    }

    /// The application step: the store's atomic dual-record update
    /// with both balance checks made against the same snapshot. The
    /// history log and the clock are untouched.
    pub fn update_balances(&mut self, transfer: &TransferRequest) -> (r: Result<
        (),
        TransferError,
    >)
        requires
            old(self).wf(),
        ensures
            final(self).wf(),
            r == Store::spec_transfer_outcome(
                old(self).store,
                transfer@.from_account,
                transfer@.to_account,
                transfer@.amount,
            ),
            r is Ok ==> Store::spec_transfer_applied(
                old(self).store,
                final(self).store,
                transfer@.from_account,
                transfer@.to_account,
                transfer@.amount,
            ),
            r is Err ==> final(self).store.accounts@ == old(self).store.accounts@,
            final(self).spec_log() == old(self).spec_log(),
            final(self).clock == old(self).clock,
    {
        self.store.atomic_transfer(&transfer.from_account, &transfer.to_account, transfer.amount)
    }

    /// The whole transfer pipeline: authorization against a consistent
    /// snapshot, then atomic application, then one history entry that
    /// both accounts' histories show. The returned verdict classifies
    /// the outcome exactly; on any error the ledger is unchanged.
    pub fn create_transfer(&mut self, transfer: &TransferRequest) -> (r: Result<
        (),
        TransferError,
    >)
        requires
            old(self).wf(),
        ensures
            final(self).wf(),
            r == old(self).spec_transfer_decision(transfer@),
            r is Ok ==> {
                &&& Store::spec_transfer_applied(
                    old(self).store,
                    final(self).store,
                    transfer@.from_account,
                    transfer@.to_account,
                    transfer@.amount,
                )
                &&& final(self).spec_log() == old(self).spec_log().push(
                    HistoryEntryV {
                        action: ActionType::Transfer,
                        timestamp: old(self).clock,
                        from: transfer@.from_account,
                        to: transfer@.to_account,
                        amount: transfer@.amount,
                    },
                )
            },
            r is Err ==> {
                &&& final(self).store.accounts@ == old(self).store.accounts@
                &&& final(self).spec_log() == old(self).spec_log()
            },
    {
        let message_hash = self.create_transfer_message_hash(transfer);
        let from_account = match self.store.get(&transfer.from_account) {
            Some(a) => a,
            None => {
                return Err(TransferError::AccountNotFound);
            },
        };
        let to_account = match self.store.get(&transfer.to_account) {
            Some(a) => a,
            None => {
                return Err(TransferError::AccountNotFound);
            },
        };
        match self.verify_transfer_conditions(transfer, &from_account, &to_account, &message_hash) {
            Ok(()) => {},
            Err(e) => {
                return Err(e);
            },
        }
        match self.update_balances(transfer) {
            Ok(()) => {},
            Err(e) => {
                return Err(e);
            },
        }
        self.append_entry(
            ActionType::Transfer,
            &transfer.from_account,
            &transfer.to_account,
            transfer.amount,
        );
        Ok(())
    }

    /// The history of the account named `id`: the logged entries that
    /// involve it, in chronological (settlement) order. With a limit,
    /// the oldest `limit` of them. An account with no logged activity
    /// gets an empty sequence; an unknown identity is an error, so
    /// callers can tell the two apart.
    pub fn get_history(&self, id: &Vec<u8>, limit: Option<u64>) -> (r: Result<
        Vec<HistoryEntry>,
        LedgerError,
    >)
        requires
            self.wf(),
        ensures
            !self.store.has(id@) ==> r == Err::<Vec<HistoryEntry>, LedgerError>(
                LedgerError::AccountNotFound,
            ),
            self.store.has(id@) ==> (r matches Ok(v)
                && v@.map_values(|e: HistoryEntry| e@) == spec_history_query(
                self.spec_log(),
                id@,
                limit,
            )),
    {
        match self.store.find(id) {
            None => Err(LedgerError::AccountNotFound),
            Some(_) => Ok(history_query(&self.history, id, limit)),
        }
    }
}

/// What a history query owes: the entries of the log that involve the
/// account, in log order, truncated to the oldest `limit` of them when
/// a limit is given.
pub open spec fn spec_history_query(
    log: Seq<HistoryEntryV>,
    id: Seq<u8>,
    limit: Option<u64>,
) -> Seq<HistoryEntryV> {
    let all = spec_history_of(log, id);
    match limit {
        None => all,
        Some(l) => if all.len() <= l {
            all
        } else {
            all.take(l as int)
        },
    }
}

/// Collects the entries of `log` that involve `id`, in order, then
/// keeps the oldest `limit` of them when a limit is given.
fn history_query(log: &Vec<HistoryEntry>, id: &Vec<u8>, limit: Option<u64>) -> (r: Vec<
    HistoryEntry,
>)
    ensures
        r@.map_values(|e: HistoryEntry| e@) == spec_history_query(
            log@.map_values(|e: HistoryEntry| e@),
            id@,
            limit,
        ),
{
    let ghost logv = log@.map_values(|e: HistoryEntry| e@);
    let mut all: Vec<HistoryEntry> = Vec::new();
    let n = log.len();
    let mut i: usize = 0;
    while i < n
        invariant
            n == log@.len(),
            i <= n,
            logv == log@.map_values(|e: HistoryEntry| e@),
            all@.map_values(|e: HistoryEntry| e@) == spec_history_of(logv.take(i as int), id@),
        decreases n - i,
    {
        let ghost prefix = logv.take(i as int);
        let e = &log[i];
        let involved = crate::store::bytes_eq(&e.from, id) || crate::store::bytes_eq(&e.to, id);
        proof {
            reveal(Seq::filter);
            assert(logv.take(i + 1).drop_last() =~= prefix);
            assert(logv.take(i + 1).last() == e@);
        }
        if involved {
            all.push(e.duplicate());
        }
        proof {
            reveal(Seq::filter);
            assert(all@.map_values(|e: HistoryEntry| e@) =~= spec_history_of(
                logv.take(i + 1),
                id@,
            ));
        }
        i += 1;
    }
    proof {
        assert(logv.take(n as int) =~= logv);
    }
    match limit {
        None => all,
        Some(l) => {
            if (all.len() as u64) <= l {
                all
            } else {
                let keep: usize = l as usize;
                let mut out: Vec<HistoryEntry> = Vec::new();
                let mut j: usize = 0;
                while j < keep
                    invariant
                        keep <= all@.len(),
                        j <= keep,
                        out@.len() == j,
                        forall|k: int| 0 <= k < j ==> #[trigger] out@[k]@ == all@[k]@,
                    decreases keep - j,
                {
                    out.push(all[j].duplicate());
                    j += 1;
                }
                proof {
                    assert(out@.map_values(|e: HistoryEntry| e@) =~= all@.map_values(
                        |e: HistoryEntry| e@,
                    ).take(keep as int));
                }
                out
            }
        },
    }
}

} // verus!
