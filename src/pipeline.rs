//! The download/scan pipeline of one scan range, as steps: the downloader
//! re-chunks the block stream by the work it carries, and the scanner caches
//! each chunk, has it scanned, evicts it and records progress.
use vstd::prelude::*;

use crate::block_cache::{insert_all, without_range, truncated, BlockCache, BlockModel, CompactBlock};
use crate::block_range::{BlockRange, ScanRange};
use crate::error::Error;
use crate::reorg::{after_scan, rewind_target, ScanOutcome, ScanStep, REWIND_MARGIN};

verus! {

/// The number of shielded spends, outputs and actions to hold in memory at
/// any time.
pub const BLOCK_ACTIONS_MEMORY_LIMIT: u64 = 500_000;

/// The capacity of the channel between downloader and scanner.
pub const CHUNK_CHANNEL_CAPACITY: u64 = 10;

/// The work after which the downloader hands a chunk to the scanner.
pub const BLOCKS_CHUNK_THRESHOLD: u64 = 50_000;

/// Progress of a sync, as reported to the caller.
#[derive(Debug, Clone, PartialEq, Eq)]
pub struct SyncUpdateData {
    pub last_fully_scanned_block: Option<u32>,
    pub tip_height: u32,
    pub current_step: u64,
    pub total_steps: u64,
    pub last_error: Option<String>,
}

/// The sum of the action counts of `blocks`.
pub open spec fn work_of(blocks: Seq<BlockModel>) -> nat
    decreases blocks.len(),
{
    if blocks.len() == 0 {
        0
    } else {
        work_of(blocks.drop_last()) + blocks.last().action_count as nat
    }
}

/// The views of a list of blocks.
pub open spec fn models(v: Seq<CompactBlock>) -> Seq<BlockModel> {
    v.map_values(|b: CompactBlock| b@)
}

/// Gathers downloaded blocks into chunks for the scanner.
pub struct DownloadChunker {
    pending: Vec<CompactBlock>,
    accumulated: u64,
    threshold: u64,
}

impl DownloadChunker {
    /// The blocks gathered and not yet handed on.
    pub closed spec fn pending(&self) -> Seq<BlockModel> {
        models(self.pending@)
    }

    /// The work after which a chunk is handed on.
    pub closed spec fn threshold(&self) -> nat {
        self.threshold as nat
    }

    /// The running tally of the pending work is exact.
    pub closed spec fn tallied(&self) -> bool {
        self.accumulated == work_of(models(self.pending@))
    }

    /// The pending work is tallied and has not passed the threshold.
    pub open spec fn wf(&self) -> bool {
        &&& self.tallied()
        &&& work_of(self.pending()) <= self.threshold()
    }

    /// A chunker that hands a chunk on once its work exceeds `threshold`.
    pub fn new(threshold: u64) -> (r: DownloadChunker)
        requires
            threshold <= u64::MAX - u32::MAX,
        ensures
            r.wf(),
            r.pending() == Seq::<BlockModel>::empty(),
            r.threshold() == threshold,
    {
        let r = DownloadChunker { pending: Vec::new(), accumulated: 0, threshold };
        assert(models(r.pending@) =~= Seq::<BlockModel>::empty());
        r
    }

    /// Adds a downloaded block; once the gathered work exceeds the threshold,
    /// returns the gathered blocks, in order, as a chunk and starts afresh.
    pub fn push(&mut self, block: CompactBlock) -> (r: Option<Vec<CompactBlock>>)
        requires
            old(self).wf(),
            old(self).threshold() <= u64::MAX - u32::MAX,
        ensures
            final(self).wf(),
            final(self).threshold() == old(self).threshold(),
            ({
                let all = old(self).pending().push(block@);
                match r {
                    Some(chunk) => {
                        &&& work_of(all) > old(self).threshold()
                        &&& models(chunk@) == all
                        &&& final(self).pending() == Seq::<BlockModel>::empty()
                    },
                    None => {
                        &&& work_of(all) <= old(self).threshold()
                        &&& final(self).pending() == all
                    },
                }
            }),
    {
        let ghost all = models(self.pending@).push(block@);
        self.accumulated = self.accumulated + block.action_count as u64;
        self.pending.push(block);
        assert(models(self.pending@) =~= all);
        assert(all.drop_last() =~= models(old(self).pending@));
        if self.accumulated > self.threshold {
            let chunk = self.pending.split_off(0);
            self.accumulated = 0;
            assert(models(self.pending@) =~= Seq::<BlockModel>::empty());
            Some(chunk)
        } else {
            None
        }
    }

    /// Hands on whatever is gathered, if anything, when the stream ends.
    pub fn finish(self) -> (r: Option<Vec<CompactBlock>>)
        requires
            self.wf(),
        ensures
            match r {
                Some(chunk) => self.pending().len() > 0 && models(chunk@) == self.pending(),
                None => self.pending().len() == 0,
            },
    {
        if self.pending.len() == 0 {
            None
        } else {
            Some(self.pending)
        }
    }
}

/// The heights from the first block of a chunk to just past its last.
pub open spec fn chunk_range_spec(chunk: Seq<BlockModel>) -> (nat, nat) {
    (chunk[0].height as nat, (chunk.last().height + 1) as nat)
}

/// The scan range that a non-empty chunk covers, with the priority of the
/// range it was downloaded for.
pub fn chunk_range(chunk: &Vec<CompactBlock>, parent: &ScanRange) -> (r: ScanRange)
    requires
        chunk@.len() > 0,
        chunk@[0].height <= chunk@.last().height < u32::MAX,
    ensures
        r.range.wf(),
        r.range.start_spec() == chunk@[0].height,
        r.range.end_spec() == chunk@.last().height + 1,
        r.priority == parent.priority,
{
    let first = chunk[0].height;
    let last = chunk[chunk.len() - 1].height;
    ScanRange { range: BlockRange::from_parts(first, last + 1), priority: parent.priority }
}

/// Caches a downloaded chunk before it is scanned.
pub fn cache_chunk(cache: &mut BlockCache, chunk: Vec<CompactBlock>)
    requires
        old(cache).wf(),
    ensures
        final(cache).wf(),
        final(cache).view() == insert_all(old(cache).view(), models(chunk@)),
{
    cache.insert_range(chunk);
}

/// Finishes the scan of one chunk: decides what follows from the scan's
/// outcome, evicts the chunk from the cache, and adds the chunk's heights to
/// the progress.
pub fn finish_chunk(
    cache: &mut BlockCache,
    scanned: &ScanRange,
    outcome: ScanOutcome,
    status: &mut SyncUpdateData,
) -> (r: Result<ScanStep, Error>)
    requires
        old(cache).wf(),
        scanned.range.wf(),
        old(status).current_step + scanned.range.len_spec() <= u64::MAX,
    ensures
        final(cache).wf(),
        match outcome {
            ScanOutcome::ContinuityError { at_height } => {
                &&& r == Ok::<ScanStep, Error>(ScanStep::Rewind { to_height: rewind_target(at_height, REWIND_MARGIN) })
                &&& final(cache).view() == without_range(
                    truncated(old(cache).view(), rewind_target(at_height, REWIND_MARGIN)),
                    scanned.range,
                )
            },
            ScanOutcome::Scanned { first_suggested } => {
                &&& r == Ok::<ScanStep, Error>(
                    match first_suggested {
                        Some(p) if p.rank() > scanned.priority.rank() => ScanStep::PrioritiesChanged,
                        _ => ScanStep::Continue,
                    },
                )
                &&& final(cache).view() == without_range(old(cache).view(), scanned.range)
            },
            ScanOutcome::Failed { message } => {
                &&& r == Err::<ScanStep, Error>(Error::Scan(message))
                &&& final(cache).view() == old(cache).view()
            },
        },
        r is Ok ==> final(status).current_step == old(status).current_step + scanned.range.len_spec(),
        r is Err ==> final(status).current_step == old(status).current_step,
        final(status).total_steps == old(status).total_steps,
        final(status).tip_height == old(status).tip_height,
        final(status).last_fully_scanned_block == old(status).last_fully_scanned_block,
        final(status).last_error == old(status).last_error,
{
    let step = after_scan(cache, scanned.priority, outcome);
    match step {
        Ok(s) => {
            cache.remove_range(&scanned.range);
            status.current_step = status.current_step + scanned.range.len() as u64;
            Ok(s)
        },
        Err(e) => Err(e),
    }
}

/// Starts the progress of a sync pass over `ranges`: the steps to go are
/// those done so far plus the heights of every range.
pub fn plan_total_steps(status: &mut SyncUpdateData, ranges: &Vec<ScanRange>)
    requires
        forall|i: int| 0 <= i < ranges@.len() ==> (#[trigger] ranges@[i]).range.wf(),
        old(status).current_step + total_len(ranges@) <= u64::MAX,
    ensures
        final(status).total_steps == old(status).current_step + total_len(ranges@),
        final(status).current_step == old(status).current_step,
        final(status).tip_height == old(status).tip_height,
        final(status).last_fully_scanned_block == old(status).last_fully_scanned_block,
{
    let mut sum: u64 = 0;
    let mut i: usize = 0;
    while i < ranges.len()
        invariant
            i <= ranges@.len(),
            forall|k: int| 0 <= k < ranges@.len() ==> (#[trigger] ranges@[k]).range.wf(),
            sum == total_len(ranges@.subrange(0, i as int)),
            status.current_step + total_len(ranges@) <= u64::MAX,
        decreases ranges@.len() - i,
    {
        proof {
            assert(ranges@.subrange(0, i + 1).drop_last() =~= ranges@.subrange(0, i as int));
            lemma_total_len_prefix(ranges@, i + 1);
        }
        sum = sum + ranges[i].range.len() as u64;
        i = i + 1;
    }
    assert(ranges@.subrange(0, i as int) =~= ranges@);
    status.total_steps = status.current_step + sum;
}

/// The number of heights in all of `ranges`.
pub open spec fn total_len(ranges: Seq<ScanRange>) -> nat
    decreases ranges.len(),
{
    if ranges.len() == 0 {
        0
    } else {
        total_len(ranges.drop_last()) + ranges.last().range.len_spec()
    }
}

/// A prefix of a list of ranges holds no more heights than the whole list.
proof fn lemma_total_len_prefix(ranges: Seq<ScanRange>, i: int)
    requires
        0 <= i <= ranges.len(),
    ensures
        total_len(ranges.subrange(0, i)) <= total_len(ranges),
    decreases ranges.len() - i,
{
    if i < ranges.len() {
        lemma_total_len_prefix(ranges, i + 1);
        assert(ranges.subrange(0, i + 1).drop_last() =~= ranges.subrange(0, i));
    } else {
        assert(ranges.subrange(0, i) =~= ranges);
    }
}

} // verus!
