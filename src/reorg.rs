//! Recovery from chain reorganizations detected while scanning.
use vstd::prelude::*;

use crate::block_cache::{truncated, BlockCache};
use crate::block_range::ScanPriority;
use crate::error::Error;

verus! {

/// How far below a continuity error the wallet rewinds.
pub const REWIND_MARGIN: u32 = 10;

/// What note scanning reported for one chunk.
#[derive(Debug, Clone, PartialEq, Eq)]
pub enum ScanOutcome {
    /// The chunk was scanned; `first_suggested` is the priority of the first
    /// range that the wallet store now suggests, if any.
    Scanned { first_suggested: Option<ScanPriority> },
    /// A block's parent does not match the wallet's history at this height.
    ContinuityError { at_height: u32 },
    /// Scanning failed for another reason.
    Failed { message: String },
}

/// What the pipeline does after a chunk was scanned.
#[derive(Debug, Clone, Copy, PartialEq, Eq, Structural)]
pub enum ScanStep {
    /// Go on with the next chunk.
    Continue,
    /// The suggested ranges changed: abandon the range and start over.
    PrioritiesChanged,
    /// A reorganization was found: the wallet store must be truncated to
    /// this height, and then the sync starts over.
    Rewind { to_height: u32 },
}

/// `e - margin`, or zero where that would be negative.
pub open spec fn rewind_target(e: u32, margin: u32) -> u32 {
    if e >= margin {
        (e - margin) as u32
    } else {
        0
    }
}

/// The height to rewind to after a continuity error at `error_height`.
pub fn rewind_height(error_height: u32, margin: u32) -> (r: u32)
    ensures
        r == rewind_target(error_height, margin),
{
    error_height.saturating_sub(margin)
}

/// Evicts every cached block above the rewind height of a continuity error
/// at `error_height`, and returns that height, to which the wallet store is
/// then truncated.
pub fn handle_continuity_error(cache: &mut BlockCache, error_height: u32) -> (r: u32)
    requires
        old(cache).wf(),
    ensures
        r == rewind_target(error_height, REWIND_MARGIN),
        final(cache).wf(),
        final(cache).view() == truncated(old(cache).view(), r),
        forall|h: u32| #[trigger] final(cache).view().contains_key(h) ==> h <= r,
{
    let r = rewind_height(error_height, REWIND_MARGIN);
    cache.truncate_to_height(r);
    r
}

/// Decides what follows the scan of a chunk of priority `current`: a
/// continuity error rewinds (evicting cached blocks above the rewind height),
/// a newly suggested range of higher priority abandons the current one, any
/// other failure is fatal.
pub fn after_scan(cache: &mut BlockCache, current: ScanPriority, outcome: ScanOutcome) -> (r: Result<
    ScanStep,
    Error,
>)
    requires
        old(cache).wf(),
    ensures
        final(cache).wf(),
        match outcome {
            ScanOutcome::Scanned { first_suggested } => {
                &&& final(cache).view() == old(cache).view()
                &&& r == Ok::<ScanStep, Error>(
                    match first_suggested {
                        Some(p) if p.rank() > current.rank() => ScanStep::PrioritiesChanged,
                        _ => ScanStep::Continue,
                    },
                )
            },
            ScanOutcome::ContinuityError { at_height } => {
                &&& r == Ok::<ScanStep, Error>(
                    ScanStep::Rewind { to_height: rewind_target(at_height, REWIND_MARGIN) },
                )
                &&& final(cache).view() == truncated(
                    old(cache).view(),
                    rewind_target(at_height, REWIND_MARGIN),
                )
            },
            ScanOutcome::Failed { message } => {
                &&& final(cache).view() == old(cache).view()
                &&& r == Err::<ScanStep, Error>(Error::Scan(message))
            },
        },
{
    match outcome {
        ScanOutcome::Scanned { first_suggested } => {
            match first_suggested {
                Some(p) => {
                    if p.exceeds(&current) {
                        Ok(ScanStep::PrioritiesChanged)
                    } else {
                        Ok(ScanStep::Continue)
                    }
                },
                None => Ok(ScanStep::Continue),
            }
        },
        ScanOutcome::ContinuityError { at_height } => {
            let to_height = handle_continuity_error(cache, at_height);
            Ok(ScanStep::Rewind { to_height })
        },
        ScanOutcome::Failed { message } => Err(Error::Scan(message)),
    }
}

/// After a continuity error at height `e`, the wallet is truncated to
/// `max(0, e - 10)` and no cached block above that height remains.
/// (Where `e < 10`, a block cached at height zero stays.)
pub proof fn lemma_rewind_after_continuity_error(
    before: crate::block_cache::BlockCache,
    after: crate::block_cache::BlockCache,
    e: u32,
    step: ScanStep,
    h: u32,
)
    requires
        after.view() == truncated(before.view(), rewind_target(e, REWIND_MARGIN)),
        step == (ScanStep::Rewind { to_height: rewind_target(e, REWIND_MARGIN) }),
        h > rewind_target(e, REWIND_MARGIN),
    ensures
        step matches ScanStep::Rewind { to_height } && to_height == (if e >= 10 { e - 10 } else { 0 }),
        !after.view().contains_key(h),
{
}

} // verus!
