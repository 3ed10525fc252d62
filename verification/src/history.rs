//! The append-only history log: action kinds and per-account entries.

use vstd::prelude::*;

use crate::store::copy_bytes;

verus! {

/// The kind of a settled action recorded in the history log.
#[derive(Clone, Copy, Debug, PartialEq, Eq, Structural)]
pub enum ActionType {
    Transfer,
    CreateAccount,
    FreezeAccount,
    UnfreezeAccount,
}

/// Decodes the wire encoding of an action kind; `None` for a value
/// outside the known range.
pub fn action_from_u32(value: i32) -> (r: Option<ActionType>)
    ensures
        r == spec_action_from_u32(value),
{
    match value {
        0 => Some(ActionType::Transfer),
        1 => Some(ActionType::CreateAccount),
        2 => Some(ActionType::FreezeAccount),
        3 => Some(ActionType::UnfreezeAccount),
        _ => None,
    }
}

/// The decoding that `action_from_u32` implements.
pub open spec fn spec_action_from_u32(value: i32) -> Option<ActionType> {
    if value == 0 {
        Some(ActionType::Transfer)
    } else if value == 1 {
        Some(ActionType::CreateAccount)
    } else if value == 2 {
        Some(ActionType::FreezeAccount)
    } else if value == 3 {
        Some(ActionType::UnfreezeAccount)
    } else {
        None
    }
}

/// Encodes an action kind for the wire; the inverse of
/// `action_from_u32` on the known range.
pub fn action_to_u32(action: ActionType) -> (r: i32)
    ensures
        spec_action_from_u32(r) == Some(action),
{
    match action {
        ActionType::Transfer => 0,
        ActionType::CreateAccount => 1,
        ActionType::FreezeAccount => 2,
        ActionType::UnfreezeAccount => 3,
    }
}

/// One settled action. Entries are immutable once appended; for a
/// non-transfer action the source and destination identities are equal
/// and the amount is zero.
#[derive(Debug, PartialEq, Eq)]
pub struct HistoryEntry {
    /// What kind of action settled.
    pub action: ActionType,
    /// Logical time of settlement; non-decreasing along the log.
    pub timestamp: u64,
    /// Identity of the source account (the acted-on account for
    /// non-transfer actions).
    pub from: Vec<u8>,
    /// Identity of the destination account (equal to `from` for
    /// non-transfer actions).
    pub to: Vec<u8>,
    /// Transferred amount; zero for non-transfer actions.
    pub amount: u64,
}

/// The mathematical value of a history entry.
#[verifier::ext_equal]
pub struct HistoryEntryV {
    pub action: ActionType,
    pub timestamp: u64,
    pub from: Seq<u8>,
    pub to: Seq<u8>,
    pub amount: u64,
}

impl View for HistoryEntry {
    type V = HistoryEntryV;

    open spec fn view(&self) -> HistoryEntryV {
        HistoryEntryV {
            action: self.action,
            timestamp: self.timestamp,
            from: self.from@,
            to: self.to@,
            amount: self.amount,
        }
    }
}

impl HistoryEntry {
    /// A copy of this entry.
    pub fn duplicate(&self) -> (r: HistoryEntry)
        ensures
            r@ == self@,
    {
        let r = HistoryEntry {
            action: self.action,
            timestamp: self.timestamp,
            from: copy_bytes(&self.from),
            to: copy_bytes(&self.to),
            amount: self.amount,
        };
        proof {
            assert(r@ =~= self@);
        }
        r
    }
}

/// Whether an entry belongs to the history of the account named `id`:
/// the account is the source or the destination of the action.
pub open spec fn spec_involves(e: HistoryEntryV, id: Seq<u8>) -> bool {
    e.from == id || e.to == id
}

/// The history of the account named `id` within a log: the entries that
/// involve it, in log (chronological) order.
pub open spec fn spec_history_of(log: Seq<HistoryEntryV>, id: Seq<u8>) -> Seq<HistoryEntryV> {
    log.filter(|e: HistoryEntryV| spec_involves(e, id))
}

/// One account's history is chronological: selecting the entries that
/// involve the account keeps the log's order, so a log with
/// non-decreasing timestamps yields a history with non-decreasing
/// timestamps.
pub proof fn lemma_history_chronological(log: Seq<HistoryEntryV>, id: Seq<u8>)
    requires
        forall|i: int, j: int|
            0 <= i <= j < log.len() ==> log[i].timestamp <= log[j].timestamp,
    ensures
        forall|i: int, j: int|
            0 <= i <= j < spec_history_of(log, id).len() ==> spec_history_of(log, id)[i].timestamp
                <= spec_history_of(log, id)[j].timestamp,
    decreases log.len(),
{
    reveal(Seq::filter);
    if log.len() > 0 {
        let pred = (|e: HistoryEntryV| spec_involves(e, id));
        let prefix = log.drop_last();
        let last = log.last();
        assert(forall|i: int, j: int|
            0 <= i <= j < prefix.len() ==> prefix[i].timestamp <= prefix[j].timestamp);
        lemma_history_chronological(prefix, id);
        let sub = spec_history_of(prefix, id);
        assert forall|i: int| 0 <= i < sub.len() implies sub[i].timestamp <= last.timestamp by {
            assert(sub.contains(sub[i]));
            prefix.lemma_filter_contains_rev(pred, sub[i]);
            let k = choose|k: int| 0 <= k < prefix.len() && prefix[k] == sub[i];
            assert(log[k].timestamp <= log[log.len() - 1].timestamp);
        }
        if pred(last) {
            assert(spec_history_of(log, id) == sub.push(last));
        } else {
            assert(spec_history_of(log, id) == sub);
        }
    }
}

} // verus!
