use zcash_sync_core::block_cache::{BlockCache, BlockCacheError, CompactBlock};
use zcash_sync_core::block_range::{BlockRange, ScanPriority};
use zcash_sync_core::reorg::{after_scan, handle_continuity_error, rewind_height, ScanOutcome, ScanStep, REWIND_MARGIN};

fn block(height: u32, tag: u8) -> CompactBlock {
    CompactBlock {
        height,
        hash: vec![tag, 1],
        prev_hash: vec![tag, 0],
        time: height,
        action_count: 2,
        payload: vec![tag; 3],
    }
}

fn filled(from: u32, to: u32) -> BlockCache {
    let mut cache = BlockCache::new();
    cache.insert_range((from..to).map(|h| block(h, h as u8)).collect());
    cache
}

#[test]
fn insert_range_then_lookup_returns_same_block() {
    let cache = filled(100, 105);
    assert_eq!(cache.len(), 5);
    let b = cache.get(103).unwrap();
    assert_eq!(b.height, 103);
    assert_eq!(b.hash, vec![103u8, 1]);
    assert_eq!(b.payload, vec![103u8; 3]);
    let all = cache.with_blocks(Some(100), Some(5)).unwrap();
    let heights: Vec<u32> = all.iter().map(|b| b.height).collect();
    assert_eq!(heights, vec![100, 101, 102, 103, 104]);
    assert_eq!(all[2].prev_hash, vec![102u8, 0]);
}

#[test]
fn lookup_reaches_the_largest_height() {
    let mut cache = BlockCache::new();
    cache.insert_range(vec![block(u32::MAX - 1, 1), block(u32::MAX, 2)]);
    let found = cache.with_blocks(Some(u32::MAX), Some(1)).unwrap();
    assert_eq!(found.len(), 1);
    assert_eq!(found[0].hash, vec![2u8, 1]);
    assert_eq!(cache.with_blocks(Some(u32::MAX - 1), None).unwrap().len(), 2);
    assert_eq!(cache.with_blocks(Some(u32::MAX - 1), Some(10)).unwrap().len(), 2);
}

#[test]
fn later_block_of_same_height_wins() {
    let mut cache = BlockCache::new();
    cache.insert_range(vec![block(7, 1), block(7, 2)]);
    assert_eq!(cache.len(), 1);
    assert_eq!(cache.get(7).unwrap().hash, vec![2u8, 1]);
}

#[test]
fn lookup_reports_first_missing_height() {
    let mut cache = filled(10, 20);
    cache.remove(14);
    assert_eq!(cache.with_blocks(Some(10), Some(10)).unwrap_err(), BlockCacheError::BlockNotFound(14));
    assert_eq!(cache.with_blocks(Some(18), Some(5)).unwrap_err(), BlockCacheError::BlockNotFound(20));
    assert_eq!(cache.with_blocks(Some(15), Some(5)).unwrap().len(), 5);
    assert_eq!(cache.with_blocks(None, Some(1)).unwrap_err(), BlockCacheError::BlockNotFound(0));
    assert_eq!(cache.with_blocks(Some(12), Some(0)).unwrap().len(), 0);
}

#[test]
fn remove_range_clears_exactly_its_interval() {
    let mut cache = filled(0, 10);
    cache.remove_range(&BlockRange::from_parts(3, 6));
    for h in 0..10 {
        assert_eq!(cache.get(h).is_some(), !(3..6).contains(&h), "height {}", h);
    }
    assert_eq!(cache.len(), 7);
}

#[test]
fn truncate_leaves_nothing_above() {
    let mut cache = filled(50, 60);
    cache.truncate_to_height(54);
    assert_eq!(cache.len(), 5);
    assert!(cache.get(54).is_some());
    assert!(cache.get(55).is_none());
    cache.truncate_to_height(u32::MAX);
    assert_eq!(cache.len(), 5);
    cache.truncate_to_height(0);
    assert_eq!(cache.len(), 0);
}

#[test]
fn remove_returns_the_block() {
    let mut cache = filled(1, 3);
    assert_eq!(cache.remove(2).unwrap().height, 2);
    assert!(cache.remove(2).is_none());
    assert_eq!(cache.len(), 1);
}

#[test]
fn continuity_error_rewinds_ten_blocks() {
    let mut cache = filled(990, 1_005);
    let to = handle_continuity_error(&mut cache, 1_000);
    assert_eq!(to, 990);
    assert_eq!(cache.len(), 1);
    assert!(cache.get(990).is_some());
    assert!(cache.get(991).is_none());
}

#[test]
fn continuity_error_near_genesis_rewinds_to_zero() {
    let mut cache = filled(0, 8);
    assert_eq!(handle_continuity_error(&mut cache, 4), 0);
    assert_eq!(cache.len(), 1);
    assert_eq!(rewind_height(4, REWIND_MARGIN), 0);
    assert_eq!(rewind_height(10, REWIND_MARGIN), 0);
    assert_eq!(rewind_height(11, REWIND_MARGIN), 1);
}

#[test]
fn after_scan_decisions() {
    let mut cache = filled(100, 110);
    let step = after_scan(&mut cache, ScanPriority::Historic, ScanOutcome::Scanned { first_suggested: Some(ScanPriority::Verify) });
    assert_eq!(step, Ok(ScanStep::PrioritiesChanged));
    let step = after_scan(&mut cache, ScanPriority::Historic, ScanOutcome::Scanned { first_suggested: Some(ScanPriority::Historic) });
    assert_eq!(step, Ok(ScanStep::Continue));
    let step = after_scan(&mut cache, ScanPriority::ChainTip, ScanOutcome::Scanned { first_suggested: None });
    assert_eq!(step, Ok(ScanStep::Continue));
    assert_eq!(cache.len(), 10);
    let step = after_scan(&mut cache, ScanPriority::ChainTip, ScanOutcome::ContinuityError { at_height: 105 });
    assert_eq!(step, Ok(ScanStep::Rewind { to_height: 95 }));
    assert_eq!(cache.len(), 0);
    let step = after_scan(&mut cache, ScanPriority::ChainTip, ScanOutcome::Failed { message: "bad".to_string() });
    assert!(step.is_err());
}
