//! The sync orchestrator as a state machine: the caller performs the work of
//! each phase and reports how it ended; the machine says which phase follows.
use vstd::prelude::*;

use crate::block_range::ScanRange;
use crate::error::Error;
use crate::pipeline::SyncUpdateData;

verus! {

/// The phases of a sync.
#[derive(Debug, Clone, Copy, PartialEq, Eq, Structural)]
pub enum SyncPhase {
    /// Ask the node for its tip and hand it to the wallet store.
    FetchTip,
    /// Run transparent address discovery to its fixed point.
    DiscoverTransparent,
    /// Scan Verify-priority ranges while the wallet store suggests one first.
    VerifyRanges,
    /// Scan the remaining suggested ranges, chunk by chunk.
    ScanRemaining,
    /// No work remains.
    CaughtUp,
    /// Wait for mempool activity (continuous mode only).
    WatchMempool,
    /// The sync has ended.
    Finished,
}

/// How the work of a phase ended.
#[derive(Debug, Clone, Copy, PartialEq, Eq, Structural)]
pub enum SyncEvent {
    /// The node reported its tip.
    TipFetched { height: u32 },
    /// Transparent discovery reached its fixed point.
    DiscoveryConverged,
    /// A Verify range was scanned; `priorities_changed` tells whether the
    /// suggested ranges must be fetched again.
    VerifyScanned { priorities_changed: bool },
    /// The wallet store suggests no Verify range first.
    NoVerifyRange,
    /// A suggested range was scanned.
    RangeScanned { priorities_changed: bool },
    /// No suggested range is left to scan.
    NoMoreRanges,
    /// The final progress of a caught-up pass was recorded and reported.
    StatusReported,
    /// The mempool showed activity, or its stream ended.
    MempoolSignal,
    /// The caller's cancellation fired.
    Canceled,
}

/// The phase that follows `p` once `e` is reported.
pub open spec fn next_phase(p: SyncPhase, e: SyncEvent, continuous: bool) -> SyncPhase {
    match (p, e) {
        (SyncPhase::Finished, _) => SyncPhase::Finished,
        (_, SyncEvent::Canceled) => SyncPhase::Finished,
        (SyncPhase::FetchTip, SyncEvent::TipFetched { .. }) => SyncPhase::DiscoverTransparent,
        (SyncPhase::DiscoverTransparent, SyncEvent::DiscoveryConverged) => SyncPhase::VerifyRanges,
        (SyncPhase::VerifyRanges, SyncEvent::VerifyScanned { priorities_changed }) => if priorities_changed {
            SyncPhase::VerifyRanges
        } else {
            SyncPhase::ScanRemaining
        },
        (SyncPhase::VerifyRanges, SyncEvent::NoVerifyRange) => SyncPhase::ScanRemaining,
        (SyncPhase::ScanRemaining, SyncEvent::RangeScanned { priorities_changed }) => if priorities_changed {
            SyncPhase::FetchTip
        } else {
            SyncPhase::ScanRemaining
        },
        (SyncPhase::ScanRemaining, SyncEvent::NoMoreRanges) => SyncPhase::CaughtUp,
        (SyncPhase::CaughtUp, SyncEvent::StatusReported) => if continuous {
            SyncPhase::WatchMempool
        } else {
            SyncPhase::Finished
        },
        (SyncPhase::WatchMempool, SyncEvent::MempoolSignal) => SyncPhase::FetchTip,
        _ => p,
    }
}

/// The state of one sync call.
#[derive(Debug, Clone, PartialEq, Eq)]
pub struct SyncMachine {
    pub phase: SyncPhase,
    /// Whether the sync tails the mempool once caught up.
    pub continuous: bool,
    pub status: SyncUpdateData,
    /// Whether the sync ended by cancellation.
    pub canceled: bool,
}

impl SyncMachine {
    /// A sync about to fetch the tip, with fresh progress.
    pub fn new(continuous: bool) -> (r: SyncMachine)
        ensures
            r.phase == SyncPhase::FetchTip,
            r.continuous == continuous,
            r.status.current_step == 0,
            r.status.total_steps == 0,
            r.status.tip_height == 0,
            r.status.last_fully_scanned_block is None,
            r.status.last_error is None,
            !r.canceled,
    {
        SyncMachine {
            phase: SyncPhase::FetchTip,
            continuous,
            status: SyncUpdateData {
                last_fully_scanned_block: None,
                tip_height: 0,
                current_step: 0,
                total_steps: 0,
                last_error: None,
            },
            canceled: false,
        }
    }

    /// Records `event` and moves to the phase that follows; a fetched tip is
    /// recorded in the progress.
    pub fn step(&mut self, event: SyncEvent) -> (r: SyncPhase)
        ensures
            r == next_phase(old(self).phase, event, old(self).continuous),
            final(self).phase == r,
            final(self).continuous == old(self).continuous,
            final(self).canceled == (old(self).canceled || (old(self).phase != SyncPhase::Finished
                && event == SyncEvent::Canceled)),
            old(self).phase == SyncPhase::FetchTip && event is TipFetched
                ==> final(self).status.tip_height == event->TipFetched_height,
            !(old(self).phase == SyncPhase::FetchTip && event is TipFetched) ==> final(self).status
                == old(self).status,
            old(self).phase == SyncPhase::FetchTip && event is TipFetched ==> {
                &&& final(self).status.current_step == old(self).status.current_step
                &&& final(self).status.total_steps == old(self).status.total_steps
            },
    {
        let next = match (self.phase, event) {
            (SyncPhase::Finished, _) => SyncPhase::Finished,
            (_, SyncEvent::Canceled) => {
                self.canceled = true;
                SyncPhase::Finished
            },
            (SyncPhase::FetchTip, SyncEvent::TipFetched { height }) => {
                self.status.tip_height = height;
                SyncPhase::DiscoverTransparent
            },
            (SyncPhase::DiscoverTransparent, SyncEvent::DiscoveryConverged) => SyncPhase::VerifyRanges,
            (SyncPhase::VerifyRanges, SyncEvent::VerifyScanned { priorities_changed }) => {
                if priorities_changed {
                    SyncPhase::VerifyRanges
                } else {
                    SyncPhase::ScanRemaining
                }
            },
            (SyncPhase::VerifyRanges, SyncEvent::NoVerifyRange) => SyncPhase::ScanRemaining,
            (SyncPhase::ScanRemaining, SyncEvent::RangeScanned { priorities_changed }) => {
                if priorities_changed {
                    SyncPhase::FetchTip
                } else {
                    SyncPhase::ScanRemaining
                }
            },
            (SyncPhase::ScanRemaining, SyncEvent::NoMoreRanges) => SyncPhase::CaughtUp,
            (SyncPhase::CaughtUp, SyncEvent::StatusReported) => {
                if self.continuous {
                    SyncPhase::WatchMempool
                } else {
                    SyncPhase::Finished
                }
            },
            (SyncPhase::WatchMempool, SyncEvent::MempoolSignal) => SyncPhase::FetchTip,
            (p, _) => p,
        };
        self.phase = next;
        next
    }

    /// Records the wallet store's last fully scanned block.
    pub fn record_scanned(&mut self, last_fully_scanned_block: Option<u32>)
        ensures
            final(self).status.last_fully_scanned_block == last_fully_scanned_block,
            final(self).phase == old(self).phase,
            final(self).status.tip_height == old(self).status.tip_height,
            final(self).status.current_step == old(self).status.current_step,
            final(self).status.total_steps == old(self).status.total_steps,
    {
        self.status.last_fully_scanned_block = last_fully_scanned_block;
    }

    /// What a finished sync returns: its progress, or the cancellation.
    pub fn outcome(self) -> (r: Result<SyncUpdateData, Error>)
        ensures
            self.canceled ==> r == Err::<SyncUpdateData, Error>(Error::Canceled),
            !self.canceled ==> r == Ok::<SyncUpdateData, Error>(self.status),
    {
        if self.canceled {
            Err(Error::Canceled)
        } else {
            Ok(self.status)
        }
    }
}

/// The Verify range to scan next: the first suggested range, when it has
/// Verify priority.
pub fn next_verify_range(suggested: &Vec<ScanRange>) -> (r: Option<ScanRange>)
    ensures
        r is Some <==> suggested@.len() > 0 && suggested@[0].priority == crate::block_range::ScanPriority::Verify,
        r matches Some(x) ==> x == suggested@[0],
{
    if suggested.len() > 0 && suggested[0].priority.is_verify() {
        Some(suggested[0])
    } else {
        None
    }
}

/// A one-shot sync never waits on the mempool: from any phase but the mempool
/// watch, no event leads a one-shot sync into it.
pub proof fn lemma_one_shot_never_watches(p: SyncPhase, e: SyncEvent)
    requires
        p != SyncPhase::WatchMempool,
    ensures
        next_phase(p, e, false) != SyncPhase::WatchMempool,
{
}

/// Once caught up, a one-shot sync returns, and a continuous one goes on to
/// watch the mempool, from which any activity leads back to fetching the tip.
pub proof fn lemma_caught_up_exits()
    ensures
        next_phase(SyncPhase::CaughtUp, SyncEvent::StatusReported, false) == SyncPhase::Finished,
        next_phase(SyncPhase::CaughtUp, SyncEvent::StatusReported, true) == SyncPhase::WatchMempool,
        next_phase(SyncPhase::WatchMempool, SyncEvent::MempoolSignal, true) == SyncPhase::FetchTip,
{
}

/// A finished sync stays finished, and cancellation finishes any sync.
pub proof fn lemma_finished_is_final(p: SyncPhase, e: SyncEvent, continuous: bool)
    ensures
        next_phase(SyncPhase::Finished, e, continuous) == SyncPhase::Finished,
        next_phase(p, SyncEvent::Canceled, continuous) == SyncPhase::Finished,
{
}

/// A scan that invalidates the priorities sends the sync back to fetching
/// the tip, abandoning the remaining ranges.
pub proof fn lemma_changed_priorities_restart(continuous: bool)
    ensures
        next_phase(SyncPhase::ScanRemaining, SyncEvent::RangeScanned { priorities_changed: true }, continuous)
            == SyncPhase::FetchTip,
{
}

} // verus!
