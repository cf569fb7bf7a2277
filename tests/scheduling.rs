use zcash_sync_core::block_range::{BlockRange, ScanPriority, ScanRange, BATCH_SIZE};

fn scan(start: u32, end: u32, priority: ScanPriority) -> ScanRange {
    ScanRange { range: BlockRange::from_parts(start, end), priority }
}

#[test]
fn batches_cover_range_without_gaps() {
    let r = scan(1_000, 25_500, ScanPriority::Historic);
    let chunks = r.batches(BATCH_SIZE);
    assert_eq!(chunks.len(), 3);
    assert_eq!((chunks[0].range.start(), chunks[0].range.end()), (1_000, 11_000));
    assert_eq!((chunks[1].range.start(), chunks[1].range.end()), (11_000, 21_000));
    assert_eq!((chunks[2].range.start(), chunks[2].range.end()), (21_000, 25_500));
    for c in &chunks {
        assert_eq!(c.priority, ScanPriority::Historic);
        assert!(c.range.len() <= BATCH_SIZE);
    }
}

#[test]
fn batches_of_exact_multiple() {
    let chunks = scan(0, 20_000, ScanPriority::ChainTip).batches(BATCH_SIZE);
    assert_eq!(chunks.len(), 2);
    assert_eq!(chunks[1].range.start(), 10_000);
    assert_eq!(chunks[1].range.end(), 20_000);
}

#[test]
fn all_batches_but_the_last_are_full() {
    let chunks = scan(3, 30_004, ScanPriority::OpenAdjacent).batches(BATCH_SIZE);
    assert_eq!(chunks.len(), 4);
    assert!(chunks[..3].iter().all(|c| c.range.len() == BATCH_SIZE));
    assert_eq!(chunks[3].range.len(), 1);
}

#[test]
fn batches_of_empty_range() {
    let chunks = scan(500, 500, ScanPriority::Verify).batches(BATCH_SIZE);
    assert!(chunks.is_empty());
}

#[test]
fn batches_of_small_range_and_unit_size() {
    let chunks = scan(7, 10, ScanPriority::FoundNote).batches(1);
    let bounds: Vec<(u32, u32)> = chunks.iter().map(|c| (c.range.start(), c.range.end())).collect();
    assert_eq!(bounds, vec![(7, 8), (8, 9), (9, 10)]);
}

#[test]
fn block_range_bounds_and_split() {
    let r = BlockRange::from_parts(100, 200);
    assert_eq!(r.len(), 100);
    assert!(!r.is_empty());
    assert_eq!(r.inclusive_bounds(), (100, 199));
    assert_eq!(r.block_range(), 100..200);
    let (a, b) = r.split_at(150).unwrap();
    assert_eq!((a.start(), a.end(), b.start(), b.end()), (100, 150, 150, 200));
    assert!(r.split_at(100).is_none());
    assert!(r.split_at(200).is_none());
    assert!(BlockRange::try_from_parts(5, 4).is_none());
    assert_eq!(BlockRange::from_range(3..9), BlockRange::from_parts(3, 9));
}

#[test]
fn priorities_are_ordered() {
    assert!(ScanPriority::Verify.exceeds(&ScanPriority::ChainTip));
    assert!(ScanPriority::ChainTip.exceeds(&ScanPriority::Historic));
    assert!(!ScanPriority::Historic.exceeds(&ScanPriority::Historic));
    assert!(ScanPriority::Verify.is_verify());
    assert!(!ScanPriority::ChainTip.is_verify());
}
