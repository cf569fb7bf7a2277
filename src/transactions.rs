//! Reporting the wallet's transactions: each note a transaction moves is
//! filed as change, as received, or as sent, and the notes of one
//! transaction are gathered into one record.
use vstd::prelude::*;
use zcash_protocol::memo::Memo;

use crate::interop::TransactionNote;

verus! {

/// Whether `memo` decodes to a memo that holds no user text: at most 512
/// bytes (zero-padded), whose first byte marks an empty, future or arbitrary
/// memo rather than text.
pub open spec fn memo_free_of_text(memo: Seq<u8>) -> bool {
    0 < memo.len() <= 512 && memo[0] >= 0xF5
}

/// Relies on zcash_protocol's `Memo::from_bytes`: more than 512 bytes fail to
/// decode; the padded memo is text (or fails as invalid UTF-8) when its first
/// byte is at most 0xF4, and is empty, future or arbitrary data otherwise.
#[verifier::external_body]
fn memo_holds_no_text(memo: &Vec<u8>) -> (r: bool)
    ensures
        r == memo_free_of_text(memo@),
{
    match Memo::from_bytes(memo) {
        Ok(Memo::Text(_)) => false,
        Ok(_) => true,
        Err(_) => false,
    }
}

/// Where a note of a transaction is listed for an account.
#[derive(Debug, Clone, Copy, PartialEq, Eq, Structural)]
pub struct NoteRole {
    /// Change: sent by the account to itself, shielded, with no user text.
    pub change: bool,
    /// Received by the account (and not change).
    pub incoming: bool,
    /// Sent by the account (and not change).
    pub outgoing: bool,
}

/// The role of a note in pool `output_pool` sent from `from_account` to
/// `to_account`, seen from `account_id`; `memo_no_text` tells whether its
/// memo is free of user text. A send to self is both incoming and outgoing.
pub open spec fn role_of(
    account_id: u32,
    from_account: Option<u32>,
    to_account: Option<u32>,
    output_pool: u32,
    memo_no_text: bool,
) -> NoteRole {
    let change = to_account == from_account && output_pool > 1 && memo_no_text;
    NoteRole {
        change,
        incoming: !change && to_account == Some(account_id),
        outgoing: !change && from_account == Some(account_id),
    }
}

/// The role of a note, given whether its memo is free of user text.
pub fn note_role(
    account_id: u32,
    from_account: Option<u32>,
    to_account: Option<u32>,
    output_pool: u32,
    memo_no_text: bool,
) -> (r: NoteRole)
    ensures
        r == role_of(account_id, from_account, to_account, output_pool, memo_no_text),
{
    let change = to_account == from_account && output_pool > 1 && memo_no_text;
    NoteRole {
        change,
        incoming: !change && to_account == Some(account_id),
        outgoing: !change && from_account == Some(account_id),
    }
}

/// The role of a note with memo bytes `memo`.
pub fn classify_note(
    account_id: u32,
    from_account: Option<u32>,
    to_account: Option<u32>,
    output_pool: u32,
    memo: &Vec<u8>,
) -> (r: NoteRole)
    ensures
        r == role_of(account_id, from_account, to_account, output_pool, memo_free_of_text(memo@)),
{
    let free = memo_holds_no_text(memo);
    note_role(account_id, from_account, to_account, output_pool, free)
}

/// A transaction of an account, with the notes it moves.
#[derive(Debug, Clone, PartialEq, Eq)]
pub struct Transaction {
    pub account_id: u32,
    pub txid: Vec<u8>,
    /// Seconds since the Unix epoch of the block that mined it.
    pub block_time: Option<i64>,
    pub mined_height: Option<u32>,
    pub expired_unmined: bool,
    pub account_balance_delta: i64,
    pub fee: Option<u64>,
    /// Notes that are sent by this transaction (and do not appear in `change`).
    pub outgoing: Vec<TransactionNote>,
    /// Notes that are received by this transaction (and do not appear in `change`).
    pub incoming: Vec<TransactionNote>,
    /// Notes that are sent and received by the same account and bear other signs of being implicit change.
    pub change: Vec<TransactionNote>,
}

/// The mathematical value of a transaction record.
pub struct TxModel {
    pub account_id: u32,
    pub txid: Seq<u8>,
    pub block_time: Option<i64>,
    pub mined_height: Option<u32>,
    pub expired_unmined: bool,
    pub account_balance_delta: i64,
    pub fee: Option<u64>,
    pub outgoing: Seq<TransactionNote>,
    pub incoming: Seq<TransactionNote>,
    pub change: Seq<TransactionNote>,
}

impl View for Transaction {
    type V = TxModel;

    open spec fn view(&self) -> TxModel {
        TxModel {
            account_id: self.account_id,
            txid: self.txid@,
            block_time: self.block_time,
            mined_height: self.mined_height,
            expired_unmined: self.expired_unmined,
            account_balance_delta: self.account_balance_delta,
            fee: self.fee,
            outgoing: self.outgoing@,
            incoming: self.incoming@,
            change: self.change@,
        }
    }
}

/// `a` with the notes of `b` appended to each of its lists.
pub open spec fn absorb(a: TxModel, b: TxModel) -> TxModel {
    TxModel {
        outgoing: a.outgoing + b.outgoing,
        incoming: a.incoming + b.incoming,
        change: a.change + b.change,
        ..a
    }
}

/// The records that `rows` gather into: consecutive rows of one transaction
/// become one record, which keeps the first row's fields and lists the
/// notes of all its rows in order.
pub open spec fn gathered(rows: Seq<TxModel>) -> Seq<TxModel>
    decreases rows.len(),
{
    if rows.len() == 0 {
        Seq::empty()
    } else {
        let before = gathered(rows.drop_last());
        let row = rows.last();
        if before.len() > 0 && before.last().txid == row.txid {
            before.update(before.len() - 1, absorb(before.last(), row))
        } else {
            before.push(row)
        }
    }
}

/// The views of a list of transaction records.
pub open spec fn tx_models(v: Seq<Transaction>) -> Seq<TxModel> {
    v.map_values(|t: Transaction| t@)
}

/// Whether two byte strings are equal.
fn same_bytes(a: &Vec<u8>, b: &Vec<u8>) -> (r: bool)
    ensures
        r == (a@ == b@),
{
    if a.len() != b.len() {
        return false;
    }
    let mut i: usize = 0;
    while i < a.len()
        invariant
            i <= a@.len(),
            a@.len() == b@.len(),
            forall|k: int| 0 <= k < i ==> a@[k] == b@[k],
        decreases a@.len() - i,
    {
        if a[i] != b[i] {
            return false;
        }
        i = i + 1;
    }
    assert(a@ =~= b@);
    true
}

/// Gathers the rows of the transaction report, one row per note, into one
/// record per transaction: consecutive rows with the same txid are merged.
pub fn gather_transactions(rows: Vec<Transaction>) -> (r: Vec<Transaction>)
    ensures
        tx_models(r@) == gathered(tx_models(rows@)),
{
    let ghost n = rows@.len();
    let ghost src = tx_models(rows@);
    let mut rest = rows;
    let mut stack: Vec<Transaction> = Vec::new();
    while rest.len() > 0
        invariant
            rest@.len() + stack@.len() == n,
            src.len() == n,
            forall|k: int| 0 <= k < rest@.len() ==> #[trigger] rest@[k]@ == src[k],
            forall|k: int| 0 <= k < stack@.len() ==> #[trigger] stack@[k]@ == src[n - 1 - k],
        decreases rest@.len(),
    {
        let row = rest.pop().unwrap();
        stack.push(row);
    }
    let mut result: Vec<Transaction> = Vec::new();
    while stack.len() > 0
        invariant
            stack@.len() <= n,
            src.len() == n,
            forall|k: int| 0 <= k < stack@.len() ==> #[trigger] stack@[k]@ == src[n - 1 - k],
            tx_models(result@) == gathered(src.subrange(0, n - stack@.len())),
        decreases stack@.len(),
    {
        let ghost done = n - stack@.len();
        let ghost before = tx_models(result@);
        let mut row = stack.pop().unwrap();
        assert(row@ == src[done]);
        assert(src.subrange(0, done + 1).drop_last() =~= src.subrange(0, done));
        let merge = result.len() > 0 && same_bytes(&result[result.len() - 1].txid, &row.txid);
        if merge {
            let mut tx = result.pop().unwrap();
            tx.incoming.append(&mut row.incoming);
            tx.outgoing.append(&mut row.outgoing);
            tx.change.append(&mut row.change);
            result.push(tx);
            assert(tx_models(result@) =~= before.update(before.len() - 1, absorb(before.last(), src[done])));
        } else {
            result.push(row);
            assert(tx_models(result@) =~= before.push(src[done]));
        }
    }
    assert(src.subrange(0, n as int) =~= src);
    result
}

} // verus!
