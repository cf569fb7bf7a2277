//! The bounded in-memory cache of downloaded compact blocks.
use std::collections::HashMap;
use vstd::prelude::*;

use crate::block_range::BlockRange;

verus! {

broadcast use vstd::std_specs::hash::group_hash_axioms;

/// A pruned block: what note scanning needs of one block, and nothing more.
#[derive(Debug)]
pub struct CompactBlock {
    pub height: u32,
    pub hash: Vec<u8>,
    pub prev_hash: Vec<u8>,
    pub time: u32,
    /// The shielded spends, outputs and actions that the block carries.
    pub action_count: u32,
    /// The encoded block, handed unread to note scanning.
    pub payload: Vec<u8>,
}

/// The mathematical value of a compact block.
pub struct BlockModel {
    pub height: u32,
    pub hash: Seq<u8>,
    pub prev_hash: Seq<u8>,
    pub time: u32,
    pub action_count: u32,
    pub payload: Seq<u8>,
}

impl View for CompactBlock {
    type V = BlockModel;

    open spec fn view(&self) -> BlockModel {
        BlockModel {
            height: self.height,
            hash: self.hash@,
            prev_hash: self.prev_hash@,
            time: self.time,
            action_count: self.action_count,
            payload: self.payload@,
        }
    }
}

fn copy_bytes(v: &Vec<u8>) -> (r: Vec<u8>)
    ensures
        r@ == v@,
{
    let mut r: Vec<u8> = Vec::with_capacity(v.len());
    let mut i: usize = 0;
    while i < v.len()
        invariant
            i <= v.len(),
            r@ == v@.subrange(0, i as int),
        decreases v.len() - i,
    {
        r.push(v[i]);
        i = i + 1;
    }
    assert(r@ =~= v@);
    r
}

impl CompactBlock {
    /// A copy of this block.
    pub fn duplicate(&self) -> (r: CompactBlock)
        ensures
            r@ == self@,
    {
        CompactBlock {
            height: self.height,
            hash: copy_bytes(&self.hash),
            prev_hash: copy_bytes(&self.prev_hash),
            time: self.time,
            action_count: self.action_count,
            payload: copy_bytes(&self.payload),
        }
    }
}

/// The failure of a cache lookup: a requested height is not cached.
#[derive(Debug, Clone, Copy, PartialEq, Eq, Structural)]
pub enum BlockCacheError {
    BlockNotFound(u32),
}

impl BlockCacheError {
    /// A sentence that describes the error.
    pub fn message(&self) -> String {
        match self {
            BlockCacheError::BlockNotFound(_) => String::from_str("Block not found in cache"),
        }
    }
}

/// Cached blocks by height, with an extent `[low, high]` that holds every
/// cached height.
pub struct BlockCache {
    blocks: HashMap<u32, CompactBlock>,
    low: u32,
    high: u32,
}

/// The map that inserting `blocks` in order into `m` yields: a later block
/// replaces an earlier one of the same height.
pub open spec fn insert_all(m: Map<u32, BlockModel>, blocks: Seq<BlockModel>) -> Map<u32, BlockModel>
    decreases blocks.len(),
{
    if blocks.len() == 0 {
        m
    } else {
        insert_all(m, blocks.drop_last()).insert(blocks.last().height, blocks.last())
    }
}

/// What stays of `m` once the heights in `[lo, hi)` are taken out.
pub open spec fn without_heights(m: Map<u32, BlockModel>, lo: int, hi: int) -> Map<u32, BlockModel> {
    m.restrict(m.dom().filter(|h: u32| !(lo <= h < hi)))
}

/// What stays of `m` once the heights of `r` are taken out.
pub open spec fn without_range(m: Map<u32, BlockModel>, r: BlockRange) -> Map<u32, BlockModel> {
    without_heights(m, r.start_spec() as int, r.end_spec() as int)
}

/// What stays of `m` once the heights above `h` are taken out.
pub open spec fn truncated(m: Map<u32, BlockModel>, h: u32) -> Map<u32, BlockModel> {
    without_heights(m, h + 1, u32::MAX + 1)
}

/// The end (exclusive) of a lookup window: `from + limit`, or just past the
/// largest height where there is no limit or that sum lies beyond it.
pub open spec fn window_end(from: u32, limit: Option<usize>) -> int {
    match limit {
        Some(l) => if from + l > u32::MAX + 1 {
            u32::MAX + 1
        } else {
            from + l
        },
        None => u32::MAX + 1,
    }
}

/// Where a lookup without a given start begins.
pub open spec fn start_of(from_height: Option<u32>) -> u32 {
    match from_height {
        Some(f) => f,
        None => 0u32,
    }
}

/// Whether every height in `[from, end)` is cached in `m`.
pub open spec fn all_cached(m: Map<u32, BlockModel>, from: u32, end: int) -> bool {
    forall|g: u32| from <= g < end ==> #[trigger] m.contains_key(g)
}

/// Whether the `i`-th of `v` is the block cached in `m` at height `from + i`.
pub open spec fn holds_block_at(m: Map<u32, BlockModel>, from: u32, v: Seq<CompactBlock>, i: int) -> bool {
    let h = from + i;
    &&& 0 <= h <= u32::MAX
    &&& m.contains_key(h as u32)
    &&& v[i]@ == m[h as u32]
}

/// What a lookup of `[from, end)` in `m` returns: the blocks in order, or the
/// first height that is missing.
pub open spec fn lookup_result(
    m: Map<u32, BlockModel>,
    from: u32,
    end: int,
    r: Result<Vec<CompactBlock>, BlockCacheError>,
) -> bool {
    match r {
        Ok(v) => {
            &&& v@.len() == end - from
            &&& forall|i: int| 0 <= i < v@.len() ==> #[trigger] holds_block_at(m, from, v@, i)
        },
        Err(BlockCacheError::BlockNotFound(h)) => {
            &&& from <= h < end
            &&& !m.contains_key(h)
            &&& forall|g: u32| from <= g < h ==> #[trigger] m.contains_key(g)
        },
    }
}

impl BlockCache {
    /// The cached blocks by height.
    pub closed spec fn view(&self) -> Map<u32, BlockModel> {
        Map::new(|h: u32| self.blocks@.contains_key(h), |h: u32| self.blocks@[h]@)
    }

    /// Each block is filed under its own height, and every cached height
    /// lies in the cache's extent.
    pub closed spec fn wf(&self) -> bool {
        forall|h: u32|
            #[trigger] self.blocks@.contains_key(h) ==> self.blocks@[h].height == h && self.low <= h
                <= self.high
    }

    /// An empty cache.
    pub fn new() -> (r: BlockCache)
        ensures
            r.wf(),
            r.view() == Map::<u32, BlockModel>::empty(),
    {
        let r = BlockCache { blocks: HashMap::new(), low: u32::MAX, high: 0 };
        assert(r.view() =~= Map::<u32, BlockModel>::empty());
        r
    }

    /// The number of cached blocks.
    pub fn len(&self) -> (r: usize)
        ensures
            r == self.view().dom().len(),
    {
        assert(self.view().dom() =~= self.blocks@.dom());
        self.blocks.len()
    }

    /// Forgets the extent once the cache has emptied.
    fn reset_extent_if_empty(&mut self)
        requires
            old(self).wf(),
        ensures
            final(self).wf(),
            final(self).view() == old(self).view(),
    {
        if self.blocks.len() == 0 {
            self.low = u32::MAX;
            self.high = 0;
            assert(self.blocks@.dom().len() == 0);
            assert forall|h: u32| !self.blocks@.contains_key(h) by {
                if self.blocks@.contains_key(h) {
                    vstd::set_lib::lemma_set_empty_equivalency_len(self.blocks@.dom());
                }
            }
        }
    }

    /// Caches `block` under its height, replacing any block cached there.
    pub fn insert(&mut self, block: CompactBlock)
        requires
            old(self).wf(),
        ensures
            final(self).wf(),
            final(self).view() == old(self).view().insert(block.height, block@),
    {
        let ghost b = block@;
        let h = block.height;
        if h < self.low {
            self.low = h;
        }
        if h > self.high {
            self.high = h;
        }
        self.blocks.insert(h, block);
        assert(self.view() =~= old(self).view().insert(b.height, b));
    }

    /// Caches each of `blocks` in order, so that a later block replaces an
    /// earlier one of the same height.
    pub fn insert_range(&mut self, blocks: Vec<CompactBlock>)
        requires
            old(self).wf(),
        ensures
            final(self).wf(),
            final(self).view() == insert_all(old(self).view(), blocks@.map_values(|b: CompactBlock| b@)),
    {
        let ghost models = blocks@.map_values(|b: CompactBlock| b@);
        let ghost n = blocks@.len();
        let mut rest = blocks;
        let mut stack: Vec<CompactBlock> = Vec::new();
        while rest.len() > 0
            invariant
                rest@.len() + stack@.len() == n,
                forall|k: int| 0 <= k < rest@.len() ==> #[trigger] rest@[k]@ == models[k],
                forall|k: int| 0 <= k < stack@.len() ==> #[trigger] stack@[k]@ == models[n - 1 - k],
                models.len() == n,
            decreases rest@.len(),
        {
            let b = rest.pop().unwrap();
            stack.push(b);
        }
        let ghost start = self.view();
        while stack.len() > 0
            invariant
                self.wf(),
                stack@.len() <= n,
                models.len() == n,
                forall|k: int| 0 <= k < stack@.len() ==> #[trigger] stack@[k]@ == models[n - 1 - k],
                self.view() == insert_all(start, models.subrange(0, n - stack@.len())),
            decreases stack@.len(),
        {
            let ghost done = n - stack@.len();
            let b = stack.pop().unwrap();
            assert(b@ == models[done]);
            self.insert(b);
            assert(models.subrange(0, done + 1).drop_last() =~= models.subrange(0, done));
        }
        assert(models.subrange(0, n as int) =~= models);
    }

    /// Takes the block at `height` out of the cache.
    pub fn remove(&mut self, height: u32) -> (r: Option<CompactBlock>)
        requires
            old(self).wf(),
        ensures
            final(self).wf(),
            final(self).view() == old(self).view().remove(height),
            match r {
                Some(b) => old(self).view().contains_key(height) && b@ == old(self).view()[height],
                None => !old(self).view().contains_key(height),
            },
    {
        let r = self.blocks.remove(&height);
        assert(self.view() =~= old(self).view().remove(height));
        r
    }

    /// Takes out every cached height in `[lo, hi)`, visiting only the heights
    /// of the extent.
    fn remove_heights(&mut self, lo: u32, hi: u64)
        requires
            old(self).wf(),
            hi <= u32::MAX + 1,
        ensures
            final(self).wf(),
            final(self).view() == without_heights(old(self).view(), lo as int, hi as int),
    {
        let ghost start = self.view();
        let first: u32 = if lo < self.low { self.low } else { lo };
        let last: u64 = if hi <= self.high as u64 { hi } else { self.high as u64 + 1 };
        let mut k: u64 = first as u64;
        let ghost low = self.low;
        let ghost high = self.high;
        assert(self.view() =~= without_heights(start, lo as int, first as int));
        while k < last
            invariant
                self.wf(),
                self.low == low,
                self.high == high,
                forall|h: u32| #[trigger] start.contains_key(h) ==> low <= h <= high,
                first <= k,
                k <= last || k == first,
                last == hi || last == high + 1,
                last <= hi,
                first == lo || first == low,
                last <= u32::MAX + 1,
                lo <= first,
                self.view() == without_heights(start, lo as int, k as int),
            decreases last - k,
        {
            let ghost before = self.view();
            self.blocks.remove(&(k as u32));
            assert(self.view() =~= before.remove(k as u32));
            k = k + 1;
            assert(self.view() =~= without_heights(start, lo as int, k as int));
        }
        assert(without_heights(start, lo as int, k as int) =~= without_heights(start, lo as int, hi as int)) by {
            assert forall|h: u32| #[trigger] start.contains_key(h) implies
                ((lo <= h < k) <==> (lo <= h < hi)) by {
                assert(low <= h <= high);
            }
        }
        self.reset_extent_if_empty();
    }

    /// Takes every block whose height lies in `range` out of the cache.
    pub fn remove_range(&mut self, range: &BlockRange)
        requires
            old(self).wf(),
            range.wf(),
        ensures
            final(self).wf(),
            final(self).view() == without_range(old(self).view(), *range),
    {
        self.remove_heights(range.start(), range.end() as u64);
    }

    /// Takes every block above `height` out of the cache.
    pub fn truncate_to_height(&mut self, height: u32)
        requires
            old(self).wf(),
        ensures
            final(self).wf(),
            final(self).view() == truncated(old(self).view(), height),
            forall|h: u32| #[trigger] final(self).view().contains_key(h) ==> h <= height,
    {
        if height < u32::MAX {
            self.remove_heights(height + 1, u32::MAX as u64 + 1);
        } else {
            assert(self.view() =~= truncated(self.view(), height));
        }
    }

    /// The block cached at `height`, if any.
    pub fn get(&self, height: u32) -> (r: Option<&CompactBlock>)
        requires
            self.wf(),
        ensures
            match r {
                Some(b) => self.view().contains_key(height) && b@ == self.view()[height],
                None => !self.view().contains_key(height),
            },
    {
        self.blocks.get(&height)
    }

    /// Copies of the cached blocks at heights `from`, `from + 1`, ... up to
    /// `from + limit` (exclusive), in order; or the first of those heights
    /// that is not cached. Without `from` the lookup starts at height zero;
    /// without `limit` it runs to the largest height.
    pub fn with_blocks(&self, from_height: Option<u32>, limit: Option<usize>) -> (r: Result<
        Vec<CompactBlock>,
        BlockCacheError,
    >)
        requires
            self.wf(),
        ensures
            lookup_result(self.view(), start_of(from_height), window_end(start_of(from_height), limit), r),
            r is Ok <==> all_cached(self.view(), start_of(from_height), window_end(start_of(from_height), limit)),
    {
        let from: u32 = match from_height {
            Some(f) => f,
            None => 0,
        };
        let top: u64 = u32::MAX as u64 + 1;
        let end: u64 = match limit {
            Some(l) => if l as u64 > top - from as u64 { top } else { from as u64 + l as u64 },
            None => top,
        };
        assert(end == window_end(from, limit));
        let mut out: Vec<CompactBlock> = Vec::new();
        let mut head: u64 = from as u64;
        while head < end
            invariant
                from <= head <= end,
                from == start_of(from_height),
                end == window_end(from, limit),
                self.wf(),
                out@.len() == head - from,
                forall|i: int| 0 <= i < out@.len() ==> #[trigger] holds_block_at(self.view(), from, out@, i),
            decreases end - head,
        {
            let h = head as u32;
            let found = self.blocks.get(&h);
            if found.is_none() {
                assert(!self.blocks@.contains_key(h));
                assert(!self.view().contains_key(h));
                assert forall|g: u32| from <= g < h implies #[trigger] self.view().contains_key(g) by {
                    assert(holds_block_at(self.view(), from, out@, g - from));
                }
                return Err(BlockCacheError::BlockNotFound(h));
            }
            let b = found.unwrap();
            let ghost prev = out@;
            assert(self.view().contains_key(h) && b@ == self.view()[h]);
            out.push(b.duplicate());
            assert forall|i: int| 0 <= i < out@.len() implies #[trigger] holds_block_at(self.view(), from, out@, i) by {
                if i < prev.len() {
                    assert(out@[i] == prev[i]);
                    assert(holds_block_at(self.view(), from, prev, i));
                } else {
                    assert(i == prev.len());
                }
            }
            head = head + 1;
        }
        assert forall|g: u32| from <= g < end implies #[trigger] self.view().contains_key(g) by {
            assert(holds_block_at(self.view(), from, out@, g - from));
        }
        Ok(out)
    }
}

/// A block inserted by `insert_range` is found under its height afterwards,
/// unchanged, provided no later block of the batch has the same height.
pub proof fn lemma_inserted_block_found(m: Map<u32, BlockModel>, blocks: Seq<BlockModel>, i: int)
    requires
        0 <= i < blocks.len(),
        forall|j: int| i < j < blocks.len() ==> (#[trigger] blocks[j]).height != blocks[i].height,
    ensures
        insert_all(m, blocks).contains_key(blocks[i].height),
        insert_all(m, blocks)[blocks[i].height] == blocks[i],
    decreases blocks.len(),
{
    if i < blocks.len() - 1 {
        let rest = blocks.drop_last();
        assert(blocks.last() == blocks[blocks.len() - 1]);
        assert forall|j: int| i < j < rest.len() implies (#[trigger] rest[j]).height != rest[i].height by {
            assert(rest[j] == blocks[j]);
        }
        lemma_inserted_block_found(m, rest, i);
    }
}

/// Every height that `insert_range` touched is cached afterwards, and the
/// others keep what they held.
pub proof fn lemma_insert_all_domain(m: Map<u32, BlockModel>, blocks: Seq<BlockModel>, h: u32)
    ensures
        insert_all(m, blocks).contains_key(h) <==> (m.contains_key(h) || exists|j: int|
            0 <= j < blocks.len() && (#[trigger] blocks[j]).height == h),
        (forall|j: int| 0 <= j < blocks.len() ==> (#[trigger] blocks[j]).height != h)
            ==> insert_all(m, blocks).contains_key(h) == m.contains_key(h)
            && (m.contains_key(h) ==> insert_all(m, blocks)[h] == m[h]),
    decreases blocks.len(),
{
    if blocks.len() > 0 {
        let rest = blocks.drop_last();
        lemma_insert_all_domain(m, rest, h);
        if exists|j: int| 0 <= j < rest.len() && (#[trigger] rest[j]).height == h {
            let j = choose|j: int| 0 <= j < rest.len() && (#[trigger] rest[j]).height == h;
            assert(blocks[j] == rest[j]);
        }
        if exists|j: int| 0 <= j < blocks.len() && (#[trigger] blocks[j]).height == h {
            let j = choose|j: int| 0 <= j < blocks.len() && (#[trigger] blocks[j]).height == h;
            if j < rest.len() {
                assert(rest[j] == blocks[j]);
            }
        }
        if forall|j: int| 0 <= j < blocks.len() ==> (#[trigger] blocks[j]).height != h {
            assert forall|j: int| 0 <= j < rest.len() implies (#[trigger] rest[j]).height != h by {
                assert(rest[j] == blocks[j]);
            }
            assert(blocks[blocks.len() - 1].height != h);
        }
    }
}

/// Removing a range clears exactly that half-open interval: a height stays
/// cached exactly when it was cached and lies outside the range, with the
/// same block.
pub proof fn lemma_remove_range_exact(m: Map<u32, BlockModel>, r: BlockRange, h: u32)
    ensures
        without_range(m, r).contains_key(h) <==> (m.contains_key(h) && !r.contains_spec(h as int)),
        without_range(m, r).contains_key(h) ==> without_range(m, r)[h] == m[h],
{
}

/// Truncating to `h` leaves no height above `h`, and keeps every block at
/// or below it.
pub proof fn lemma_truncate_exact(m: Map<u32, BlockModel>, h: u32, g: u32)
    ensures
        truncated(m, h).contains_key(g) <==> (m.contains_key(g) && g <= h),
        truncated(m, h).contains_key(g) ==> truncated(m, h)[g] == m[g],
{
}

} // verus!
