//! The handle-based interface of the light-client wallet: configuration,
//! progress and note values, and the registry of open clients.
use std::collections::HashMap;
use vstd::prelude::*;

use crate::consensus::ChainType;
use crate::error::LightWalletError;

verus! {

broadcast use vstd::std_specs::hash::group_hash_axioms;

/// How to open a light-client wallet.
#[derive(Debug, Clone, PartialEq, Eq)]
pub struct Config {
    pub server_uri: String,
    pub chain_type: ChainType,
    pub data_dir: String,
    pub wallet_name: String,
    pub log_name: String,
    pub monitor_mempool: bool,
    pub minimum_confirmations: u32,
}

/// The keys and birthday of a wallet.
#[derive(Debug, Clone, PartialEq, Eq)]
pub struct WalletInfo {
    pub ufvk: Option<String>,
    pub unified_spending_key: Option<Vec<u8>>,
    pub birthday_height: u64,
}

/// Progress of a light client's sync.
#[derive(Debug, Clone, PartialEq, Eq)]
pub struct SyncStatus {
    pub in_progress: bool,
    pub last_error: Option<String>,
    pub sync_id: u64,
    pub start_block: u64,
    pub end_block: u64,
    pub blocks_done: u64,
    pub trial_dec_done: u64,
    pub txn_scan_done: u64,
    pub blocks_total: u64,
    pub batch_num: u64,
    pub batch_total: u64,
}

/// A Sapling note of a transaction.
#[derive(Debug, Clone, PartialEq, Eq)]
pub struct SaplingNote {
    pub value: u64,
    pub memo: Vec<u8>,
    pub is_change: bool,
    pub recipient: Vec<u8>,
}

/// An Orchard note of a transaction.
#[derive(Debug, Clone, PartialEq, Eq)]
pub struct OrchardNote {
    pub value: u64,
    pub memo: Vec<u8>,
    pub is_change: bool,
    pub recipient: Vec<u8>,
}

/// Progress of a send.
#[derive(Debug, Clone, PartialEq, Eq)]
pub struct SendUpdate {
    pub id: u32,
    pub is_send_in_progress: bool,
    pub progress: u32,
    pub total: u32,
    pub last_error: Option<String>,
    pub last_transaction_id: Option<String>,
}

/// The open light clients, by handle.
pub struct LightClientRegistry<C> {
    clients: HashMap<u64, C>,
    counter: u64,
}

impl<C> LightClientRegistry<C> {
    /// The open clients by handle.
    pub closed spec fn view(&self) -> Map<u64, C> {
        self.clients@
    }

    /// The handle that the next client receives.
    pub closed spec fn next_handle(&self) -> u64 {
        self.counter
    }

    /// An empty registry; handles start at one.
    pub fn new() -> (r: LightClientRegistry<C>)
        ensures
            r.view() == Map::<u64, C>::empty(),
            r.next_handle() == 1,
    {
        LightClientRegistry { clients: HashMap::new(), counter: 1 }
    }

    /// Opens `client` under a fresh handle. Handles count up from one and
    /// wrap around at the largest `u64`.
    pub fn add(&mut self, client: C) -> (r: u64)
        ensures
            r == old(self).next_handle(),
            final(self).view() == old(self).view().insert(r, client),
            final(self).next_handle() == (if old(self).next_handle() == u64::MAX {
                0
            } else {
                old(self).next_handle() + 1
            }),
    {
        let handle = self.counter;
        self.counter = if self.counter == u64::MAX { 0 } else { self.counter + 1 };
        self.clients.insert(handle, client);
        handle
    }

    /// The client open under `handle`.
    pub fn get(&self, handle: u64) -> (r: Result<&C, LightWalletError>)
        ensures
            match r {
                Ok(c) => self.view().contains_key(handle) && *c == self.view()[handle],
                Err(e) => !self.view().contains_key(handle) && e == LightWalletError::InvalidHandle,
            },
    {
        match self.clients.get(&handle) {
            Some(c) => Ok(c),
            None => Err(LightWalletError::InvalidHandle),
        }
    }

    /// Closes the client under `handle`; tells whether one was open.
    pub fn remove(&mut self, handle: u64) -> (r: bool)
        ensures
            r == old(self).view().contains_key(handle),
            final(self).view() == old(self).view().remove(handle),
            final(self).next_handle() == old(self).next_handle(),
    {
        match self.clients.remove(&handle) {
            Some(_) => true,
            None => false,
        }
    }
}

/// Closes the light client under `handle`; tells whether one was open.
pub fn lightwallet_deinitialize<C>(registry: &mut LightClientRegistry<C>, handle: u64) -> (r: bool)
    ensures
        r == old(registry).view().contains_key(handle),
        final(registry).view() == old(registry).view().remove(handle),
{
    registry.remove(handle)
}

} // verus!
