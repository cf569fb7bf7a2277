//! The values that the wallet's public interface exchanges with its host,
//! and the registry that lets a host cancel a long-running call.
use std::collections::HashMap;
use tokio_util::sync::CancellationToken;
use vstd::prelude::*;

use crate::consensus::{sapling_activation, sapling_activation_height, ChainType};
use crate::error::LightWalletError;
use crate::pipeline::SyncUpdateData;
use crate::transactions::Transaction;

verus! {

broadcast use vstd::std_specs::hash::group_hash_axioms;

#[verifier::external_type_specification]
#[verifier::external_body]
pub struct ExCancellationToken(CancellationToken);

/// The pools that hold a wallet's funds.
#[derive(Debug, Clone, Copy, PartialEq, Eq, Structural)]
pub enum Pool {
    Transparent,
    Sapling,
    Orchard,
}

/// Where a wallet's data lives, and on which chain.
#[derive(Debug, Clone, PartialEq, Eq)]
pub struct DbInit {
    pub data_file: String,
    pub network: ChainType,
    pub min_confirmations: u32,
}

/// The heights that bound an account's history.
#[derive(Debug, Clone, Copy, PartialEq, Eq, Structural)]
pub struct BirthdayHeights {
    /// The birthday given at account creation if non-zero, else the height of
    /// the first transaction if any, else the Sapling activation height.
    pub original_birthday_height: u32,
    /// The height of the first transaction if any, else the Sapling
    /// activation height.
    pub birthday_height: u32,
    /// The height of the oldest unspent note or UTXO, if any.
    pub rebirth_height: Option<u32>,
}

/// An account of the wallet.
#[derive(Debug, Clone, PartialEq, Eq)]
pub struct AccountInfo {
    pub id: u32,
    pub uvk: Option<String>,
    pub birthday_heights: BirthdayHeights,
}

/// An unspent transparent output.
#[derive(Debug, Clone, PartialEq, Eq)]
pub struct TransparentNote {
    pub value: u64,
    pub recipient: String,
}

/// One note that a transaction sends or receives.
#[derive(Debug, Clone, PartialEq, Eq)]
pub struct TransactionNote {
    pub recipient: String,
    pub pool: Pool,
    pub value: u64,
    pub memo: Option<Vec<u8>>,
}

/// One payment that a send should make.
#[derive(Debug, Clone, PartialEq, Eq)]
pub struct TransactionSendDetail {
    pub recipient: String,
    pub value: u64,
    pub memo: Option<Vec<u8>>,
}

/// What a simulated send would cost.
#[derive(Debug, Clone, Copy, PartialEq, Eq, Structural)]
pub struct SendDetails {
    pub fee: u64,
}

/// A host that follows a sync: it receives the progress and the newly found
/// transactions, at most once per scanned chunk.
pub trait SyncUpdate {
    fn update_status(&self, data: SyncUpdateData);

    fn report_transactions(&self, transactions: Vec<Transaction>);
}

/// A host that learns the id under which it may cancel a call.
pub trait CancellationSource {
    fn set_cancellation_id(&self, id: u32);
}

/// The birthday heights of an account from what the wallet store holds: the
/// birthday recorded at account creation (zero where none was given), the
/// height of the first transaction if any, and the height of the oldest
/// unspent output if any. Without a first transaction the birthday is the
/// chain's Sapling activation height; a zero recorded birthday falls back to
/// that birthday.
pub fn get_birthday_heights(
    network: ChainType,
    original_birthday_height: u32,
    first_transaction_height: Option<u32>,
    rebirth_height: Option<u32>,
) -> (r: BirthdayHeights)
    ensures
        r.original_birthday_height == if original_birthday_height != 0 {
            original_birthday_height
        } else {
            r.birthday_height
        },
        r.birthday_height == match first_transaction_height {
            Some(h) => h,
            None => sapling_activation(network),
        },
        r.rebirth_height == rebirth_height,
{
    let birthday_height = match first_transaction_height {
        Some(h) => h,
        None => match sapling_activation_height(network) {
            Some(h) => h,
            None => 0,
        },
    };
    let original = if original_birthday_height != 0 {
        original_birthday_height
    } else {
        birthday_height
    };
    BirthdayHeights { original_birthday_height: original, birthday_height, rebirth_height }
}

/// The unspent transparent outputs of an account, from the wallet store's
/// `(value, address)` rows, in the rows' order.
pub fn get_unshielded_utxos(rows: Vec<(u64, String)>) -> (r: Vec<TransparentNote>)
    ensures
        r@.len() == rows@.len(),
        forall|i: int|
            0 <= i < r@.len() ==> (#[trigger] r@[i]).value == rows@[i].0 && r@[i].recipient == rows@[i].1,
{
    let mut out: Vec<TransparentNote> = Vec::new();
    let mut rest = rows;
    let mut stack: Vec<(u64, String)> = Vec::new();
    let ghost n = rest@.len();
    let ghost src = rest@;
    while rest.len() > 0
        invariant
            rest@.len() + stack@.len() == n,
            src.len() == n,
            forall|k: int| 0 <= k < rest@.len() ==> #[trigger] rest@[k] == src[k],
            forall|k: int| 0 <= k < stack@.len() ==> #[trigger] stack@[k] == src[n - 1 - k],
        decreases rest@.len(),
    {
        let row = rest.pop().unwrap();
        stack.push(row);
    }
    while stack.len() > 0
        invariant
            out@.len() + stack@.len() == n,
            src.len() == n,
            forall|k: int| 0 <= k < stack@.len() ==> #[trigger] stack@[k] == src[n - 1 - k],
            forall|i: int|
                0 <= i < out@.len() ==> (#[trigger] out@[i]).value == src[i].0 && out@[i].recipient == src[i].1,
        decreases stack@.len(),
    {
        let (value, recipient) = stack.pop().unwrap();
        let ghost prev = out@;
        out.push(TransparentNote { value, recipient });
        assert(forall|i: int| 0 <= i < prev.len() ==> out@[i] == prev[i]);
    }
    out
}

/// The calls that a host may cancel, by id.
pub struct CancellationRegistry {
    tokens: HashMap<u32, CancellationToken>,
    counter: u32,
    fired: Ghost<Set<u32>>,
}

impl CancellationRegistry {
    /// The ids whose tokens have been cancelled through this registry.
    pub closed spec fn fired(&self) -> Set<u32> {
        self.fired@
    }

    /// Relies on tokio-util's `CancellationToken::cancel`: it cancels `token`
    /// and every clone of it, which this registry records as the firing of
    /// `id`.
    #[verifier::external_body]
    fn fire(&mut self, token: &CancellationToken, id: u32)
        ensures
            final(self).tokens@ == old(self).tokens@,
            final(self).counter == old(self).counter,
            final(self).fired@ == old(self).fired@.insert(id),
    {
        token.cancel()
    }

    /// The ids of the calls that can still be cancelled.
    pub closed spec fn ids(&self) -> Set<u32> {
        self.tokens@.dom()
    }

    /// The id that the next registration hands out.
    pub closed spec fn next_id(&self) -> u32 {
        self.counter
    }

    /// An empty registry; ids start at one.
    pub fn new() -> (r: CancellationRegistry)
        ensures
            r.ids() == Set::<u32>::empty(),
            r.next_id() == 1,
            r.fired() == Set::<u32>::empty(),
    {
        let r = CancellationRegistry { tokens: HashMap::new(), counter: 1, fired: Ghost(Set::empty()) };
        assert(r.ids() =~= Set::<u32>::empty());
        r
    }

    /// Files `token` under a fresh id, which the caller hands to its host.
    /// Ids count up from one and wrap around at the largest `u32`.
    pub fn register(&mut self, token: CancellationToken) -> (r: u32)
        ensures
            r == old(self).next_id(),
            final(self).ids() == old(self).ids().insert(r),
            final(self).next_id() == (if old(self).next_id() == u32::MAX {
                0
            } else {
                old(self).next_id() + 1
            }),
            final(self).fired() == old(self).fired(),
    {
        let id = self.counter;
        self.counter = if self.counter == u32::MAX { 0 } else { self.counter + 1 };
        self.tokens.insert(id, token);
        id
    }

    /// Forgets the call filed under `id`, once it has ended.
    pub fn release(&mut self, id: u32)
        ensures
            final(self).ids() == old(self).ids().remove(id),
            final(self).next_id() == old(self).next_id(),
            final(self).fired() == old(self).fired(),
    {
        self.tokens.remove(&id);
    }
}

/// Cancels the call filed under `id`, if it is still running, and forgets it.
/// An unknown id is no error.
pub fn cancel(registry: &mut CancellationRegistry, id: u32) -> (r: Result<(), LightWalletError>)
    ensures
        r is Ok,
        final(registry).ids() == old(registry).ids().remove(id),
        final(registry).next_id() == old(registry).next_id(),
        old(registry).ids().contains(id) ==> final(registry).fired() == old(registry).fired().insert(id),
        !old(registry).ids().contains(id) ==> final(registry).fired() == old(registry).fired(),
{
    match registry.tokens.remove(&id) {
        Some(token) => registry.fire(&token, id),
        None => {},
    }
    Ok(())
}

} // verus!
