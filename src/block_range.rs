//! Half-open block height ranges, scan priorities and batching.
use vstd::prelude::*;

verus! {

/// The largest number of heights that one batch of a scan range covers.
pub const BATCH_SIZE: u32 = 10_000;

/// A half-open range of block heights `[start, end)`.
#[derive(Debug, Clone, Copy, PartialEq, Eq, Structural)]
pub struct BlockRange {
    start: u32,
    end: u32,
}

/// Why a range of blocks should be scanned, from least to most urgent.
#[derive(Debug, Clone, Copy, PartialEq, Eq, Structural)]
pub enum ScanPriority {
    Ignored,
    Scanned,
    Historic,
    OpenAdjacent,
    FoundNote,
    ChainTip,
    Verify,
}

/// A range of heights tagged with the priority at which it should be scanned.
#[derive(Debug, Clone, Copy, PartialEq, Eq, Structural)]
pub struct ScanRange {
    pub range: BlockRange,
    pub priority: ScanPriority,
}

impl ScanPriority {
    /// The rank of a priority: a higher rank is scanned sooner.
    pub open spec fn rank(self) -> int {
        match self {
            ScanPriority::Ignored => 0,
            ScanPriority::Scanned => 1,
            ScanPriority::Historic => 2,
            ScanPriority::OpenAdjacent => 3,
            ScanPriority::FoundNote => 4,
            ScanPriority::ChainTip => 5,
            ScanPriority::Verify => 6,
        }
    }

    /// The rank of this priority.
    pub fn level(&self) -> (r: u8)
        ensures
            r as int == self.rank(),
    {
        match self {
            ScanPriority::Ignored => 0,
            ScanPriority::Scanned => 1,
            ScanPriority::Historic => 2,
            ScanPriority::OpenAdjacent => 3,
            ScanPriority::FoundNote => 4,
            ScanPriority::ChainTip => 5,
            ScanPriority::Verify => 6,
        }
    }

    /// Whether this priority is more urgent than `other`.
    pub fn exceeds(&self, other: &ScanPriority) -> (r: bool)
        ensures
            r == (self.rank() > other.rank()),
    {
        self.level() > other.level()
    }

    /// Whether this is the priority of ranges that must be verified first.
    pub fn is_verify(&self) -> (r: bool)
        ensures
            r == (*self == ScanPriority::Verify),
    {
        matches!(self, ScanPriority::Verify)
    }
}

impl BlockRange {
    /// Every range keeps its start at or below its end.
    pub open spec fn wf(self) -> bool {
        self.start_spec() <= self.end_spec()
    }

    /// The first height of the range.
    pub closed spec fn start_spec(self) -> nat {
        self.start as nat
    }

    /// The height just past the range.
    pub closed spec fn end_spec(self) -> nat {
        self.end as nat
    }

    /// The number of heights in the range.
    pub open spec fn len_spec(self) -> nat {
        (self.end_spec() - self.start_spec()) as nat
    }

    /// Whether `h` lies in the range.
    pub open spec fn contains_spec(self, h: int) -> bool {
        self.start_spec() <= h < self.end_spec()
    }

    /// Builds the range `[start, end)`.
    pub fn from_parts(start: u32, end: u32) -> (r: BlockRange)
        requires
            start <= end,
        ensures
            r.start_spec() == start,
            r.end_spec() == end,
            r.wf(),
    {
        BlockRange { start, end }
    }

    /// Builds a range from a std range of heights.
    pub fn from_range(range: std::ops::Range<u32>) -> (r: BlockRange)
        requires
            range.start <= range.end,
        ensures
            r.start_spec() == range.start,
            r.end_spec() == range.end,
            r.wf(),
    {
        BlockRange { start: range.start, end: range.end }
    }

    /// Builds the range `[start, end)`, or reports that `end` lies below `start`.
    pub fn try_from_parts(start: u32, end: u32) -> (r: Option<BlockRange>)
        ensures
            r.is_some() <==> start <= end,
            r matches Some(b) ==> b.start_spec() == start && b.end_spec() == end && b.wf(),
    {
        if end < start {
            None
        } else {
            Some(BlockRange { start, end })
        }
    }

    /// The first height of the range.
    pub fn start(&self) -> (r: u32)
        ensures
            r == self.start_spec(),
    {
        self.start
    }

    /// The height just past the range.
    pub fn end(&self) -> (r: u32)
        ensures
            r == self.end_spec(),
    {
        self.end
    }

    /// The range as a std range of heights.
    pub fn block_range(&self) -> (r: std::ops::Range<u32>)
        ensures
            r.start == self.start_spec(),
            r.end == self.end_spec(),
    {
        self.start..self.end
    }

    /// Whether the range holds no heights.
    pub fn is_empty(&self) -> (r: bool)
        requires
            self.wf(),
        ensures
            r == (self.len_spec() == 0),
    {
        self.start == self.end
    }

    /// The number of heights in the range.
    pub fn len(&self) -> (r: u32)
        requires
            self.wf(),
        ensures
            r == self.len_spec(),
    {
        self.end - self.start
    }

    /// The first and last heights of a non-empty range, both inclusive, as
    /// the remote node's block-range requests take them.
    pub fn inclusive_bounds(&self) -> (r: (u64, u64))
        requires
            self.wf(),
            self.start_spec() < self.end_spec(),
        ensures
            r.0 == self.start_spec(),
            r.1 == self.end_spec() - 1,
    {
        (self.start as u64, (self.end - 1) as u64)
    }

    /// Splits the range at `at`, if `at` lies strictly inside it.
    pub fn split_at(&self, at: u32) -> (r: Option<(BlockRange, BlockRange)>)
        requires
            self.wf(),
        ensures
            r.is_some() <==> self.start_spec() < at < self.end_spec(),
            r matches Some(p) ==> {
                &&& p.0.start_spec() == self.start_spec() && p.0.end_spec() == at
                &&& p.1.start_spec() == at && p.1.end_spec() == self.end_spec()
                &&& p.0.wf() && p.1.wf()
            },
    {
        if self.start < at && at < self.end {
            Some((BlockRange { start: self.start, end: at }, BlockRange { start: at, end: self.end }))
        } else {
            None
        }
    }
}

/// `chunks` are non-empty ranges that follow one another without gap or
/// overlap from `start` to `end`, each with at most `size` heights.
pub open spec fn tiles(chunks: Seq<ScanRange>, start: nat, end: nat, size: nat) -> bool
    decreases chunks.len(),
{
    if chunks.len() == 0 {
        start == end
    } else {
        let c = chunks.last().range;
        &&& c.wf()
        &&& c.start_spec() < c.end_spec()
        &&& c.len_spec() <= size
        &&& c.end_spec() == end
        &&& tiles(chunks.drop_last(), start, c.start_spec(), size)
    }
}

/// Whether some chunk holds height `h`.
pub open spec fn covers(chunks: Seq<ScanRange>, h: int) -> bool {
    exists|i: int| 0 <= i < chunks.len() && #[trigger] chunks[i].range.contains_spec(h)
}

impl ScanRange {
    /// Splits this range into consecutive batches of `batch_size` heights
    /// (the last may be shorter), each with this range's priority.
    pub fn batches(&self, batch_size: u32) -> (r: Vec<ScanRange>)
        requires
            self.range.wf(),
            batch_size > 0,
        ensures
            tiles(r@, self.range.start_spec(), self.range.end_spec(), batch_size as nat),
            forall|i: int| 0 <= i < r.len() ==> #[trigger] r@[i].priority == self.priority,
            forall|i: int| 0 <= i < r.len() - 1 ==> (#[trigger] r@[i]).range.len_spec() == batch_size,
    {
        let mut out: Vec<ScanRange> = Vec::new();
        let mut cursor: BlockRange = self.range;
        while !cursor.is_empty()
            invariant
                cursor.wf(),
                cursor.end == self.range.end,
                self.range.start <= cursor.start,
                batch_size > 0,
                tiles(out@, self.range.start_spec(), cursor.start_spec(), batch_size as nat),
                forall|i: int| 0 <= i < out.len() ==> #[trigger] out@[i].priority == self.priority,
                forall|i: int| 0 <= i < out.len() - 1 ==> (#[trigger] out@[i]).range.len_spec() == batch_size,
                out.len() > 0 && out@[out.len() - 1].range.len_spec() != batch_size ==> cursor.len_spec() == 0,
            decreases cursor.end - cursor.start,
        {
            let split_point: u32 = if cursor.len() > batch_size {
                cursor.start + batch_size
            } else {
                cursor.end
            };
            let piece = match cursor.split_at(split_point) {
                Some((cur, next)) => {
                    cursor = next;
                    cur
                },
                None => {
                    let cur = cursor;
                    cursor = BlockRange::from_parts(cursor.end, cursor.end);
                    cur
                },
            };
            let ghost prev = out@;
            out.push(ScanRange { range: piece, priority: self.priority });
            assert(out@.drop_last() =~= prev);
        }
        out
    }
}

/// Each batch is non-empty, holds at most `size` heights, and lies inside
/// the split range; batches come in ascending order of height.
pub proof fn lemma_batches_bounded(chunks: Seq<ScanRange>, start: nat, end: nat, size: nat)
    requires
        tiles(chunks, start, end, size),
    ensures
        start <= end,
        forall|i: int|
            0 <= i < chunks.len() ==> {
                &&& (#[trigger] chunks[i]).range.wf()
                &&& start <= chunks[i].range.start_spec()
                &&& chunks[i].range.start_spec() < chunks[i].range.end_spec()
                &&& chunks[i].range.end_spec() <= end
                &&& chunks[i].range.len_spec() <= size
            },
        forall|i: int, j: int|
            0 <= i < j < chunks.len() ==> (#[trigger] chunks[i]).range.end_spec()
                <= (#[trigger] chunks[j]).range.start_spec(),
    decreases chunks.len(),
{
    if chunks.len() > 0 {
        let rest = chunks.drop_last();
        let mid = chunks.last().range.start_spec();
        lemma_batches_bounded(rest, start, mid, size);
        assert forall|i: int| 0 <= i < rest.len() implies #[trigger] chunks[i] == rest[i] by {}
    }
}

/// Batching loses no height and invents none: a height lies in some batch
/// exactly when it lies in the range that was split.
pub proof fn lemma_batches_cover(chunks: Seq<ScanRange>, start: nat, end: nat, size: nat, h: int)
    requires
        tiles(chunks, start, end, size),
    ensures
        covers(chunks, h) <==> start <= h < end,
    decreases chunks.len(),
{
    lemma_batches_bounded(chunks, start, end, size);
    if chunks.len() > 0 {
        let rest = chunks.drop_last();
        let n = chunks.len() - 1;
        let mid = chunks.last().range.start_spec();
        lemma_batches_cover(rest, start, mid, size, h);
        lemma_batches_bounded(rest, start, mid, size);
        if covers(chunks, h) {
            let i = choose|i: int| 0 <= i < chunks.len() && #[trigger] chunks[i].range.contains_spec(h);
            assert(chunks[i] == chunks[i]);
        }
        if start <= h < end {
            if h < mid {
                let i = choose|i: int| 0 <= i < rest.len() && #[trigger] rest[i].range.contains_spec(h);
                assert(rest[i] == chunks[i]);
                assert(chunks[i].range.contains_spec(h));
            } else {
                assert(chunks[n].range.contains_spec(h));
            }
        }
    }
}

/// Batches do not overlap: two different batches share no height.
pub proof fn lemma_batches_disjoint(
    chunks: Seq<ScanRange>,
    start: nat,
    end: nat,
    size: nat,
    i: int,
    j: int,
    h: int,
)
    requires
        tiles(chunks, start, end, size),
        0 <= i < j < chunks.len(),
    ensures
        !(chunks[i].range.contains_spec(h) && chunks[j].range.contains_spec(h)),
{
    lemma_batches_bounded(chunks, start, end, size);
    assert(chunks[i].range.end_spec() <= chunks[j].range.start_spec());
}

} // verus!
