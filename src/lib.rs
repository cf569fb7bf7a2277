//! Synchronization core of a light wallet: scan-range scheduling, the block
//! cache, chain-reorganization recovery, retry decisions, transparent address
//! discovery, the sync state machine and balance bucketing.
pub mod balances;
pub mod block_cache;
pub mod block_range;
pub mod consensus;
pub mod discovery;
pub mod error;
pub mod interop;
pub mod lightwallet;
pub mod orchestrator;
pub mod pipeline;
pub mod reorg;
pub mod resilience;
pub mod submission;
pub mod transactions;
