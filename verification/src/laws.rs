//! Ledger-wide laws, stated over the same models the operation
//! contracts use and proved once and for all.

use vstd::prelude::*;

use crate::crypto::{sha256_of, sig_ok};
use crate::errors::{FrozenSide, TransferError};
use crate::ledger::{Ledger, TransferRequestV};
use crate::message::spec_transfer_message;
use crate::store::{AccountV, Store};

verus! {

/// No balance is ever negative: a balance is an unsigned 64-bit
/// value, and the applier's contracts prove every debit and credit
/// exact, so no operation wraps a balance around.
pub proof fn lemma_balance_nonnegative(a: AccountV)
    ensures
        a.balance >= 0,
{
}

/// Conservation: a transfer that the store accepted and applied moves
/// exactly the requested amount, and the sum of the two touched
/// balances is unchanged. When source and destination coincide, the
/// debit and the credit cancel on the one record.
pub proof fn lemma_transfer_conserves_sum(
    pre: Store,
    post: Store,
    from: Seq<u8>,
    to: Seq<u8>,
    amount: u64,
)
    requires
        pre.wf(),
        pre.has(from),
        pre.has(to),
        Store::spec_transfer_outcome(pre, from, to, amount) == Ok::<(), TransferError>(()),
        Store::spec_transfer_applied(pre, post, from, to, amount),
    ensures
        from != to ==> post.spec_get(from).balance == pre.spec_get(from).balance - amount,
        from != to ==> post.spec_get(to).balance == pre.spec_get(to).balance + amount,
        from == to ==> post.spec_get(from).balance == pre.spec_get(from).balance,
        post.spec_get(from).balance + post.spec_get(to).balance == pre.spec_get(from).balance
            + pre.spec_get(to).balance,
{
}

/// Freeze precedence: a transfer whose source account is frozen is
/// rejected as source-frozen, whatever the signature and whatever
/// the balances; the freeze check comes before both.
pub proof fn lemma_frozen_source_rejected(l: Ledger, t: TransferRequestV)
    requires
        l.store.has(t.from_account),
        l.store.has(t.to_account),
        l.store.spec_get(t.from_account).is_frozen,
    ensures
        l.spec_transfer_decision(t) == Err::<(), TransferError>(
            TransferError::FrozenAccount(FrozenSide::Source),
        ),
{
}

/// A transfer towards a frozen account (the source not being frozen)
/// is rejected as destination-frozen, whatever the signature and
/// whatever the balances; the verdict tells the two freeze cases
/// apart.
pub proof fn lemma_frozen_destination_rejected(l: Ledger, t: TransferRequestV)
    requires
        l.store.has(t.from_account),
        l.store.has(t.to_account),
        !l.store.spec_get(t.from_account).is_frozen,
        l.store.spec_get(t.to_account).is_frozen,
    ensures
        l.spec_transfer_decision(t) == Err::<(), TransferError>(
            TransferError::FrozenAccount(FrozenSide::Destination),
        ),
{
}

/// A transfer from a frozen or unknown source never settles, with no
/// assumption on the destination, the signature or the balances; with
/// the engine's unchanged-on-error contract, such a request can never
/// move value.
pub proof fn lemma_frozen_source_never_settles(l: Ledger, t: TransferRequestV)
    requires
        l.store.has(t.from_account) ==> l.store.spec_get(t.from_account).is_frozen,
    ensures
        !(l.spec_transfer_decision(t) is Ok),
{
}

/// A transfer whose signature does not verify against the source
/// identity's key is rejected as `InvalidSignature` whenever both
/// accounts exist and neither is frozen, whatever the balances; the
/// signature check comes before both balance checks. The engine's
/// contracts add that a rejected transfer leaves the ledger unchanged.
pub proof fn lemma_invalid_signature_rejected(l: Ledger, t: TransferRequestV)
    requires
        l.store.has(t.from_account),
        l.store.has(t.to_account),
        !l.store.spec_get(t.from_account).is_frozen,
        !l.store.spec_get(t.to_account).is_frozen,
        !sig_ok(
            l.store.spec_get(t.from_account).id,
            sha256_of(spec_transfer_message(t.from_account, t.to_account, t.amount, t.nonce)),
            t.signature,
        ),
    ensures
        l.spec_transfer_decision(t) == Err::<(), TransferError>(TransferError::InvalidSignature),
{
}

/// A transfer of more than the source balance is rejected as
/// `InsufficientBalance` whenever the checks that precede the balance
/// check (resolution, freeze state, signature) pass. The engine's
/// contracts add that a rejected transfer leaves the ledger unchanged.
pub proof fn lemma_insufficient_balance_rejected(l: Ledger, t: TransferRequestV)
    requires
        l.store.has(t.from_account),
        l.store.has(t.to_account),
        !l.store.spec_get(t.from_account).is_frozen,
        !l.store.spec_get(t.to_account).is_frozen,
        sig_ok(
            l.store.spec_get(t.from_account).id,
            sha256_of(spec_transfer_message(t.from_account, t.to_account, t.amount, t.nonce)),
            t.signature,
        ),
        l.store.spec_get(t.from_account).balance < t.amount,
    ensures
        l.spec_transfer_decision(t) == Err::<(), TransferError>(
            TransferError::InsufficientBalance,
        ),
{
}

/// A transfer of more than the source balance never settles, with no
/// assumption on freeze states, the signature or the destination;
/// with the engine's unchanged-on-error contract, such a request can
/// never move value.
pub proof fn lemma_excessive_amount_never_settles(l: Ledger, t: TransferRequestV)
    requires
        l.store.has(t.from_account) ==> l.store.spec_get(t.from_account).balance < t.amount,
    ensures
        !(l.spec_transfer_decision(t) is Ok),
{
}

/// Opposite transfers cancel: settling a transfer of some amount from
/// one account to another and then a transfer of the same amount back
/// restores both balances, so their sum is unchanged throughout.
/// Transfers settle one at a time (each takes the engine exclusively),
/// so two requests issued together settle in one of the two orders,
/// and this law covers both by symmetry of its parameters.
pub proof fn lemma_opposite_transfers_restore(
    s0: Store,
    s1: Store,
    s2: Store,
    a: Seq<u8>,
    b: Seq<u8>,
    amount: u64,
)
    requires
        s0.wf(),
        s0.has(a),
        s0.has(b),
        Store::spec_transfer_outcome(s0, a, b, amount) == Ok::<(), TransferError>(()),
        Store::spec_transfer_applied(s0, s1, a, b, amount),
        Store::spec_transfer_outcome(s1, b, a, amount) == Ok::<(), TransferError>(()),
        Store::spec_transfer_applied(s1, s2, b, a, amount),
    ensures
        s2.spec_get(a).balance == s0.spec_get(a).balance,
        s2.spec_get(b).balance == s0.spec_get(b).balance,
{
}

} // verus!
