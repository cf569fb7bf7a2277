use zcash_sync_core::block_cache::{BlockCache, CompactBlock};
use zcash_sync_core::block_range::{BlockRange, ScanPriority, ScanRange, BATCH_SIZE};
use zcash_sync_core::error::Error;
use zcash_sync_core::orchestrator::{next_verify_range, SyncEvent, SyncMachine, SyncPhase};
use zcash_sync_core::pipeline::{cache_chunk, chunk_range, finish_chunk, plan_total_steps, DownloadChunker, BLOCKS_CHUNK_THRESHOLD};
use zcash_sync_core::reorg::{ScanOutcome, ScanStep};

fn block(height: u32, actions: u32) -> CompactBlock {
    CompactBlock { height, hash: vec![1], prev_hash: vec![0], time: 0, action_count: actions, payload: Vec::new() }
}

#[test]
fn chunker_hands_on_after_threshold() {
    assert_eq!(BLOCKS_CHUNK_THRESHOLD, 50_000);
    let mut c = DownloadChunker::new(10);
    assert!(c.push(block(1, 4)).is_none());
    assert!(c.push(block(2, 6)).is_none());
    let chunk = c.push(block(3, 1)).unwrap();
    assert_eq!(chunk.iter().map(|b| b.height).collect::<Vec<u32>>(), vec![1, 2, 3]);
    assert!(c.push(block(4, 2)).is_none());
    let rest = c.finish().unwrap();
    assert_eq!(rest.len(), 1);
    assert_eq!(rest[0].height, 4);
    assert!(DownloadChunker::new(10).finish().is_none());
}

#[test]
fn scanner_caches_scans_and_evicts_chunks() {
    let parent = ScanRange { range: BlockRange::from_parts(100, 110), priority: ScanPriority::ChainTip };
    let chunk: Vec<CompactBlock> = (100..105).map(|h| block(h, 1)).collect();
    let r = chunk_range(&chunk, &parent);
    assert_eq!((r.range.start(), r.range.end(), r.priority), (100, 105, ScanPriority::ChainTip));
    let mut cache = BlockCache::new();
    cache_chunk(&mut cache, chunk);
    assert_eq!(cache.len(), 5);
    let mut machine = SyncMachine::new(false);
    let step = finish_chunk(&mut cache, &r, ScanOutcome::Scanned { first_suggested: None }, &mut machine.status);
    assert_eq!(step, Ok(ScanStep::Continue));
    assert_eq!(cache.len(), 0);
    assert_eq!(machine.status.current_step, 5);
    let failed = finish_chunk(&mut cache, &r, ScanOutcome::Failed { message: "x".to_string() }, &mut machine.status);
    assert_eq!(failed, Err(Error::Scan("x".to_string())));
    assert_eq!(machine.status.current_step, 5);
}

#[test]
fn total_steps_add_every_range() {
    let mut machine = SyncMachine::new(false);
    machine.status.current_step = 7;
    let ranges = vec![
        ScanRange { range: BlockRange::from_parts(0, 10), priority: ScanPriority::Historic },
        ScanRange { range: BlockRange::from_parts(20, 25), priority: ScanPriority::ChainTip },
    ];
    plan_total_steps(&mut machine.status, &ranges);
    assert_eq!(machine.status.total_steps, 22);
}

#[test]
fn verify_range_comes_first() {
    let v = ScanRange { range: BlockRange::from_parts(5, 6), priority: ScanPriority::Verify };
    let h = ScanRange { range: BlockRange::from_parts(0, 5), priority: ScanPriority::Historic };
    assert_eq!(next_verify_range(&vec![v, h]), Some(v));
    assert_eq!(next_verify_range(&vec![h, v]), None);
    assert_eq!(next_verify_range(&Vec::new()), None);
}

#[test]
fn state_machine_transitions() {
    let mut m = SyncMachine::new(true);
    assert_eq!(m.step(SyncEvent::TipFetched { height: 77 }), SyncPhase::DiscoverTransparent);
    assert_eq!(m.status.tip_height, 77);
    assert_eq!(m.step(SyncEvent::DiscoveryConverged), SyncPhase::VerifyRanges);
    assert_eq!(m.step(SyncEvent::VerifyScanned { priorities_changed: true }), SyncPhase::VerifyRanges);
    assert_eq!(m.step(SyncEvent::VerifyScanned { priorities_changed: false }), SyncPhase::ScanRemaining);
    assert_eq!(m.step(SyncEvent::RangeScanned { priorities_changed: false }), SyncPhase::ScanRemaining);
    assert_eq!(m.step(SyncEvent::RangeScanned { priorities_changed: true }), SyncPhase::FetchTip);
    m.step(SyncEvent::TipFetched { height: 78 });
    m.step(SyncEvent::DiscoveryConverged);
    m.step(SyncEvent::NoVerifyRange);
    assert_eq!(m.step(SyncEvent::NoMoreRanges), SyncPhase::CaughtUp);
    assert_eq!(m.step(SyncEvent::StatusReported), SyncPhase::WatchMempool);
    assert_eq!(m.step(SyncEvent::MempoolSignal), SyncPhase::FetchTip);
    assert_eq!(m.step(SyncEvent::Canceled), SyncPhase::Finished);
    assert_eq!(m.step(SyncEvent::TipFetched { height: 1 }), SyncPhase::Finished);
    assert_eq!(m.outcome(), Err(Error::Canceled));
}

/// A wallet store reduced to what the sync decisions read: the tip it was
/// told of, and the highest height fully scanned.
struct SimulatedStore {
    tip: u32,
    scanned_to: Option<u32>,
    birthday: u32,
}

impl SimulatedStore {
    fn suggest_scan_ranges(&self) -> Vec<ScanRange> {
        let from = self.scanned_to.map(|h| h + 1).unwrap_or(self.birthday);
        if from > self.tip {
            Vec::new()
        } else {
            vec![ScanRange { range: BlockRange::from_parts(from, self.tip + 1), priority: ScanPriority::ChainTip }]
        }
    }
}

#[test]
fn one_shot_sync_of_fresh_wallet_reaches_tip() {
    let birthday = 2_000_000u32;
    let chain_tip = birthday + 50;
    let mut store = SimulatedStore { tip: 0, scanned_to: None, birthday };
    let mut cache = BlockCache::new();
    let mut m = SyncMachine::new(false);
    let mut rounds = 0;
    while m.phase != SyncPhase::Finished {
        rounds += 1;
        assert!(rounds < 1_000);
        let event = match m.phase {
            SyncPhase::FetchTip => {
                store.tip = chain_tip;
                SyncEvent::TipFetched { height: chain_tip }
            }
            SyncPhase::DiscoverTransparent => SyncEvent::DiscoveryConverged,
            SyncPhase::CaughtUp => SyncEvent::StatusReported,
            SyncPhase::VerifyRanges => match next_verify_range(&store.suggest_scan_ranges()) {
                Some(_) => SyncEvent::VerifyScanned { priorities_changed: false },
                None => SyncEvent::NoVerifyRange,
            },
            SyncPhase::ScanRemaining => {
                let ranges = store.suggest_scan_ranges();
                if ranges.is_empty() {
                    SyncEvent::NoMoreRanges
                } else {
                    plan_total_steps(&mut m.status, &ranges);
                    for batch in ranges[0].batches(BATCH_SIZE) {
                        let blocks: Vec<CompactBlock> = (batch.range.start()..batch.range.end()).map(|h| block(h, 3)).collect();
                        let scanned = chunk_range(&blocks, &batch);
                        cache_chunk(&mut cache, blocks);
                        assert_eq!(cache.with_blocks(Some(scanned.range.start()), Some(scanned.range.len() as usize)).unwrap().len(), 51);
                        let step = finish_chunk(&mut cache, &scanned, ScanOutcome::Scanned { first_suggested: None }, &mut m.status);
                        assert_eq!(step, Ok(ScanStep::Continue));
                        store.scanned_to = Some(scanned.range.end() - 1);
                    }
                    m.record_scanned(store.scanned_to);
                    SyncEvent::RangeScanned { priorities_changed: false }
                }
            }
            _ => unreachable!(),
        };
        m.step(event);
    }
    assert!(store.suggest_scan_ranges().is_empty());
    assert_eq!(cache.len(), 0);
    let status = m.outcome().unwrap();
    assert_eq!(status.last_fully_scanned_block, Some(chain_tip));
    assert_eq!(status.tip_height, chain_tip);
    assert_eq!(status.current_step, 51);
    assert_eq!(status.total_steps, 51);
}
