//! Transparent address discovery: keeping a run of unused addresses ahead of
//! the last used one.
use std::collections::HashMap;
use vstd::prelude::*;

use crate::consensus::{sapling_activation, sapling_activation_height, ChainType};

verus! {

broadcast use vstd::std_specs::hash::group_hash_axioms;

/// How many consecutive unused addresses each account keeps.
pub const GAP_LIMIT: u32 = 20;

/// The highest address index that discovery accepts: above it the walk of
/// the gap limit could run past the largest index.
pub const MAX_ADDRESS_INDEX: u32 = 4_294_967_274;

/// A transparent address that the wallet watches.
#[derive(Debug, Clone, PartialEq, Eq)]
pub struct TransparentAddressSyncInfo {
    pub account_id: u32,
    /// The diversifier index the address was derived at.
    pub index: u32,
    /// The encoded address.
    pub address: String,
    /// The height up to which its history has been fetched.
    pub height: Option<u32>,
    /// Whether it has received or spent value.
    pub used: bool,
}

/// Whether `m` records the address at index `i` as used.
pub open spec fn used_at(m: Map<u32, bool>, i: u32) -> bool {
    m.contains_key(i) && m[i]
}

/// `t` is the highest used index of `m`, or -1 where none is used.
pub open spec fn is_top_used(m: Map<u32, bool>, t: int) -> bool {
    &&& (t == -1 ==> forall|k: u32| !#[trigger] used_at(m, k))
    &&& (t != -1 ==> 0 <= t <= u32::MAX && used_at(m, t as u32))
    &&& forall|k: u32| #[trigger] used_at(m, k) ==> k <= t
}

/// `r` lists, in increasing order, every index below `stop` that `m` lacks.
pub open spec fn lists_missing(m: Map<u32, bool>, stop: int, r: Seq<u32>) -> bool {
    &&& forall|j: int| 0 <= j < r.len() ==> #[trigger] r[j] < stop && !m.contains_key(r[j])
    &&& forall|j: int, k: int| 0 <= j < k < r.len() ==> #[trigger] r[j] < #[trigger] r[k]
    &&& forall|i: u32| i < stop && !m.contains_key(i) ==> #[trigger] r.contains(i)
}

/// Whether index `i` must be derived for an account whose addresses are `m`:
/// it is missing and lies below the end of the run of `GAP_LIMIT` indices
/// that follows the highest used one.
pub open spec fn must_derive(m: Map<u32, bool>, i: u32) -> bool {
    exists|t: int| is_top_used(m, t) && i < t + 1 + GAP_LIMIT && !m.contains_key(i)
}

/// The highest used index is unique.
proof fn lemma_top_used_unique(m: Map<u32, bool>, a: int, b: int)
    requires
        is_top_used(m, a),
        is_top_used(m, b),
    ensures
        a == b,
{
    if a != -1 {
        assert(used_at(m, a as u32));
    }
    if b != -1 {
        assert(used_at(m, b as u32));
    }
}

/// The indices below `stop` that `used` lacks, in increasing order.
fn missing_below(used: &HashMap<u32, bool>, stop: u32) -> (r: Vec<u32>)
    ensures
        lists_missing(used@, stop as int, r@),
{
    let mut out: Vec<u32> = Vec::new();
    let mut index: u32 = 0;
    while index < stop
        invariant
            index <= stop,
            lists_missing(used@, index as int, out@),
        decreases stop - index,
    {
        let ghost prev = out@;
        if !used.contains_key(&index) {
            out.push(index);
        }
        assert(forall|j: int| 0 <= j < prev.len() ==> out@[j] == prev[j]);
        assert forall|i: u32| i < index + 1 && !used@.contains_key(i) implies #[trigger] out@.contains(i) by {
            if i < index {
                assert(prev.contains(i));
                let j = choose|j: int| 0 <= j < prev.len() && prev[j] == i;
                assert(out@[j] == i);
            } else {
                assert(out@[prev.len() as int] == i);
            }
        }
        index = index + 1;
    }
    out
}

/// `m` with each index of `r` added as an unused address.
pub open spec fn with_derived(m: Map<u32, bool>, r: Seq<u32>) -> Map<u32, bool> {
    Map::new(
        |k: u32| m.contains_key(k) || r.contains(k),
        |k: u32|
            if m.contains_key(k) {
                m[k]
            } else {
                false
            },
    )
}

/// Once the derived addresses are added to an account whose highest used
/// index is `t`, every index up to `t + GAP_LIMIT` is present, the
/// `GAP_LIMIT` indices above `t` are all unused, no index above
/// `t + GAP_LIMIT` was added, every address that was there before stays as it
/// was, and `t` is still the highest used index. Discovery has then
/// converged: nothing is left to derive.
pub proof fn lemma_gap_limit_after_discovery(m: Map<u32, bool>, t: int, r: Seq<u32>)
    requires
        is_top_used(m, t),
        lists_missing(m, t + 1 + GAP_LIMIT, r),
    ensures
        forall|i: u32| i <= t + GAP_LIMIT ==> #[trigger] with_derived(m, r).contains_key(i),
        forall|i: u32| t < i <= t + GAP_LIMIT ==> !#[trigger] with_derived(m, r)[i],
        forall|k: u32|
            #[trigger] with_derived(m, r).contains_key(k) && !m.contains_key(k) ==> k <= t + GAP_LIMIT,
        forall|k: u32| #[trigger] m.contains_key(k) ==> with_derived(m, r).contains_key(k)
            && with_derived(m, r)[k] == m[k],
        is_top_used(with_derived(m, r), t),
        lists_missing(with_derived(m, r), t + 1 + GAP_LIMIT, Seq::<u32>::empty()),
{
    let w = with_derived(m, r);
    assert forall|i: u32| i <= t + GAP_LIMIT implies #[trigger] w.contains_key(i) by {
        if !m.contains_key(i) {
            assert(r.contains(i));
        }
    }
    assert forall|i: u32| t < i <= t + GAP_LIMIT implies !#[trigger] w[i] by {
        if m.contains_key(i) {
            if m[i] {
                assert(used_at(m, i));
            }
        }
    }
    assert forall|k: u32| #[trigger] w.contains_key(k) && !m.contains_key(k) implies k <= t + GAP_LIMIT by {
        let j = choose|j: int| 0 <= j < r.len() && r[j] == k;
        assert(r[j] < t + 1 + GAP_LIMIT);
    }
    assert forall|k: u32| #[trigger] used_at(w, k) == used_at(m, k) by {}
}

/// The used flags by index of `account`'s addresses in `s`; where an index
/// appears twice, the later entry counts.
pub open spec fn used_map(s: Seq<TransparentAddressSyncInfo>, account: u32) -> Map<u32, bool>
    decreases s.len(),
{
    if s.len() == 0 {
        Map::empty()
    } else if s.last().account_id == account {
        used_map(s.drop_last(), account).insert(s.last().index, s.last().used)
    } else {
        used_map(s.drop_last(), account)
    }
}

/// Whether some address of `s` belongs to `account`.
pub open spec fn has_account(s: Seq<TransparentAddressSyncInfo>, account: u32) -> bool {
    exists|j: int| 0 <= j < s.len() && (#[trigger] s[j]).account_id == account
}

/// The keys of `used_map` are indices of `account`'s entries in `s`.
proof fn lemma_used_map_keys(s: Seq<TransparentAddressSyncInfo>, account: u32, k: u32)
    requires
        used_map(s, account).contains_key(k),
    ensures
        exists|j: int| 0 <= j < s.len() && (#[trigger] s[j]).index == k && s[j].account_id == account,
    decreases s.len(),
{
    if s.len() > 0 {
        if s.last().account_id == account && s.last().index == k {
            assert(s[s.len() - 1].index == k);
        } else {
            lemma_used_map_keys(s.drop_last(), account, k);
            let j = choose|j: int|
                0 <= j < s.drop_last().len() && (#[trigger] s.drop_last()[j]).index == k
                    && s.drop_last()[j].account_id == account;
            assert(s[j] == s.drop_last()[j]);
        }
    }
}

/// The used flags by index of `account`'s addresses.
fn collect_used(taddrs: &Vec<TransparentAddressSyncInfo>, account: u32) -> (r: HashMap<u32, bool>)
    ensures
        r@ == used_map(taddrs@, account),
{
    let mut m: HashMap<u32, bool> = HashMap::new();
    let mut j: usize = 0;
    while j < taddrs.len()
        invariant
            j <= taddrs@.len(),
            m@ == used_map(taddrs@.subrange(0, j as int), account),
        decreases taddrs@.len() - j,
    {
        let t = &taddrs[j];
        if t.account_id == account {
            m.insert(t.index, t.used);
        }
        assert(taddrs@.subrange(0, j + 1).drop_last() =~= taddrs@.subrange(0, j as int));
        j = j + 1;
    }
    assert(taddrs@.subrange(0, j as int) =~= taddrs@);
    m
}

/// The end of the gap after the highest used index of `account`: one past
/// that index plus `GAP_LIMIT`, or `GAP_LIMIT` where none is used.
fn gap_end(taddrs: &Vec<TransparentAddressSyncInfo>, account: u32, used: &HashMap<u32, bool>) -> (r: u32)
    requires
        used@ == used_map(taddrs@, account),
        forall|j: int| 0 <= j < taddrs@.len() ==> (#[trigger] taddrs@[j]).index <= MAX_ADDRESS_INDEX,
    ensures
        exists|t: int| is_top_used(used@, t) && r == t + 1 + GAP_LIMIT,
{
    let ghost s = taddrs@;
    let mut best: Option<u32> = None;
    let mut j: usize = 0;
    while j < taddrs.len()
        invariant
            s == taddrs@,
            j <= s.len(),
            forall|q: int| 0 <= q < s.len() ==> (#[trigger] s[q]).index <= MAX_ADDRESS_INDEX,
            best matches Some(b) ==> (used_at(used@, b) && b <= MAX_ADDRESS_INDEX),
            forall|q: int|
                0 <= q < j && (#[trigger] s[q]).account_id == account && used_at(used@, s[q].index)
                    ==> (best matches Some(b) && s[q].index <= b),
        decreases s.len() - j,
    {
        let t = &taddrs[j];
        if t.account_id == account {
            let u = match used.get(&t.index) {
                Some(v) => *v,
                None => false,
            };
            if u {
                match best {
                    Some(b) => {
                        if t.index > b {
                            best = Some(t.index);
                        }
                    },
                    None => {
                        best = Some(t.index);
                    },
                }
            }
        }
        j = j + 1;
    }
    let ghost top: int = match best {
        Some(b) => b as int,
        None => -1,
    };
    assert forall|k: u32| #[trigger] used_at(used@, k) implies k <= top by {
        lemma_used_map_keys(s, account, k);
        let q = choose|q: int| 0 <= q < s.len() && (#[trigger] s[q]).index == k && s[q].account_id == account;
        assert(s[q].account_id == account && used_at(used@, s[q].index));
    }
    assert(is_top_used(used@, top));
    match best {
        Some(b) => b + 1 + GAP_LIMIT,
        None => GAP_LIMIT,
    }
}

/// For every account that has addresses in `taddrs`, the indices to derive
/// so that `GAP_LIMIT` unused addresses follow its highest used index, as
/// `(account, index)` pairs: ascending within each account, with accounts in
/// the order they first appear, and no pair twice.
pub fn fill_in_taddrs_to_gap_limit(taddrs: &Vec<TransparentAddressSyncInfo>) -> (r: Vec<(u32, u32)>)
    requires
        forall|j: int| 0 <= j < taddrs@.len() ==> (#[trigger] taddrs@[j]).index <= MAX_ADDRESS_INDEX,
    ensures
        forall|a: u32, i: u32|
            #[trigger] r@.contains((a, i)) <==> has_account(taddrs@, a) && must_derive(used_map(taddrs@, a), i),
        forall|j: int, k: int|
            0 <= j < k < r@.len() && (#[trigger] r@[j]).0 == (#[trigger] r@[k]).0 ==> r@[j].1 < r@[k].1,
        forall|j: int, k: int| 0 <= j < k < r@.len() ==> #[trigger] r@[j] != #[trigger] r@[k],
{
    let ghost s = taddrs@;
    let mut accounts: Vec<u32> = Vec::new();
    let mut out: Vec<(u32, u32)> = Vec::new();
    let mut j: usize = 0;
    while j < taddrs.len()
        invariant
            s == taddrs@,
            j <= s.len(),
            forall|q: int| 0 <= q < s.len() ==> (#[trigger] s[q]).index <= MAX_ADDRESS_INDEX,
            forall|a: u32| #[trigger] accounts@.contains(a) <==> exists|q: int| 0 <= q < j && (#[trigger] s[q]).account_id == a,
            forall|a: u32, i: u32|
                #[trigger] out@.contains((a, i)) <==> accounts@.contains(a) && must_derive(used_map(s, a), i),
            forall|x: int| 0 <= x < out@.len() ==> accounts@.contains((#[trigger] out@[x]).0),
            forall|x: int, y: int|
                0 <= x < y < out@.len() && (#[trigger] out@[x]).0 == (#[trigger] out@[y]).0 ==> out@[x].1 < out@[y].1,
        decreases s.len() - j,
    {
        let account = taddrs[j].account_id;
        let mut seen = false;
        let mut q: usize = 0;
        while q < accounts.len()
            invariant
                q <= accounts@.len(),
                seen <==> exists|x: int| 0 <= x < q && accounts@[x] == account,
            decreases accounts@.len() - q,
        {
            if accounts[q] == account {
                seen = true;
            }
            q = q + 1;
        }
        assert(seen <==> accounts@.contains(account));
        let ghost acc0 = accounts@;
        if !seen {
            let used = collect_used(taddrs, account);
            let stop = gap_end(taddrs, account, &used);
            let found = missing_below(&used, stop);
            let ghost t = choose|t: int| is_top_used(used@, t) && stop == t + 1 + GAP_LIMIT;
            let ghost before = out@;
            let mut x: usize = 0;
            while x < found.len()
                invariant
                    x <= found@.len(),
                    before.len() + x == out@.len(),
                    lists_missing(used@, stop as int, found@),
                    used@ == used_map(s, account),
                    !acc0.contains(account),
                    forall|y: int| 0 <= y < before.len() ==> #[trigger] out@[y] == before[y],
                    forall|y: int| 0 <= y < x ==> #[trigger] out@[before.len() + y] == (account, found@[y]),
                    forall|y: int| 0 <= y < before.len() ==> acc0.contains((#[trigger] before[y]).0),
                    forall|p: (u32, u32)| #[trigger] out@.contains(p) <==> before.contains(p)
                        || (p.0 == account && exists|y: int| 0 <= y < x && found@[y] == p.1),
                decreases found@.len() - x,
            {
                let ghost prev = out@;
                out.push((account, found[x]));
                assert forall|p: (u32, u32)| #[trigger] out@.contains(p) <==> prev.contains(p) || p == (account, found@[x as int]) by {
                    if out@.contains(p) {
                        let y = choose|y: int| 0 <= y < out@.len() && out@[y] == p;
                        if y < prev.len() {
                            assert(prev[y] == p);
                        }
                    }
                    if prev.contains(p) {
                        let y = choose|y: int| 0 <= y < prev.len() && prev[y] == p;
                        assert(out@[y] == p);
                    }
                    if p == (account, found@[x as int]) {
                        assert(out@[prev.len() as int] == p);
                    }
                }
                x = x + 1;
            }
            accounts.push(account);
            assert forall|a: u32| #[trigger] accounts@.contains(a) <==> acc0.contains(a) || a == account by {
                if accounts@.contains(a) {
                    let y = choose|y: int| 0 <= y < accounts@.len() && accounts@[y] == a;
                    if y < acc0.len() {
                        assert(acc0[y] == a);
                    }
                }
                if acc0.contains(a) {
                    let y = choose|y: int| 0 <= y < acc0.len() && acc0[y] == a;
                    assert(accounts@[y] == a);
                }
                if a == account {
                    assert(accounts@[acc0.len() as int] == a);
                }
            }
            assert forall|a: u32, i: u32|
                #[trigger] out@.contains((a, i)) <==> accounts@.contains(a) && must_derive(used_map(s, a), i) by {
                if a == account {
                    if must_derive(used_map(s, a), i) {
                        let t2 = choose|t2: int| is_top_used(used@, t2) && i < t2 + 1 + GAP_LIMIT && !used@.contains_key(i);
                        lemma_top_used_unique(used@, t, t2);
                        assert(found@.contains(i));
                        let y = choose|y: int| 0 <= y < found@.len() && found@[y] == i;
                        assert(exists|y: int| 0 <= y < found.len() && found@[y] == i);
                    }
                    if out@.contains((a, i)) && !before.contains((a, i)) {
                        let y = choose|y: int| 0 <= y < found.len() && found@[y] == i;
                        assert(found@[y] < stop && !used@.contains_key(found@[y]));
                    }
                    if before.contains((a, i)) {
                        let y = choose|y: int| 0 <= y < before.len() && before[y] == (a, i);
                        assert(acc0.contains(before[y].0));
                    }
                }
            }
            assert forall|x: int| 0 <= x < out@.len() implies accounts@.contains((#[trigger] out@[x]).0) by {
                if x < before.len() {
                    assert(out@[x] == before[x]);
                } else {
                    let z = x - before.len();
                    assert(out@[before.len() + z] == (account, found@[z]));
                }
            }
            assert forall|x: int, y: int|
                0 <= x < y < out@.len() && (#[trigger] out@[x]).0 == (#[trigger] out@[y]).0 implies out@[x].1 < out@[y].1 by {
                if y < before.len() {
                    assert(out@[x] == before[x] && out@[y] == before[y]);
                } else if x < before.len() {
                    assert(out@[x] == before[x]);
                    assert(acc0.contains(before[x].0));
                    let z = y - before.len();
                    assert(out@[before.len() + z] == (account, found@[z]));
                } else {
                    let z = x - before.len();
                    assert(out@[before.len() + z] == (account, found@[z]));
                    let z = y - before.len();
                    assert(out@[before.len() + z] == (account, found@[z]));
                }
            }
        }
        assert forall|a: u32| #[trigger] accounts@.contains(a) <==> exists|q: int| 0 <= q < j + 1 && (#[trigger] s[q]).account_id == a by {
            if acc0.contains(a) {
                let q = choose|q: int| 0 <= q < j && (#[trigger] s[q]).account_id == a;
                assert(0 <= q < j + 1);
            }
            if a == account {
                assert(s[j as int].account_id == a);
            }
            if exists|q: int| 0 <= q < j + 1 && (#[trigger] s[q]).account_id == a {
                let q = choose|q: int| 0 <= q < j + 1 && (#[trigger] s[q]).account_id == a;
                if q < j {
                } else {
                    assert(a == account);
                }
            }
        }
        j = j + 1;
    }
    assert forall|a: u32, i: u32|
        #[trigger] out@.contains((a, i)) <==> has_account(s, a) && must_derive(used_map(s, a), i) by {
        if has_account(s, a) {
            let q = choose|q: int| 0 <= q < s.len() && (#[trigger] s[q]).account_id == a;
            assert(accounts@.contains(a));
        }
    }
    assert forall|x: int, y: int| 0 <= x < y < out@.len() implies #[trigger] out@[x] != #[trigger] out@[y] by {
        if out@[x] == out@[y] {
            assert(out@[x].0 == out@[y].0);
        }
    }
    out
}

/// The heights whose history is fetched for a watched address: from where
/// its history was last fetched (or, for a new address, from the chain's
/// Sapling activation) up to the tip, both inclusive.
pub fn transparent_history_range(network: ChainType, last_synced: Option<u32>, tip: u32) -> (r: (u32, u32))
    ensures
        r.0 == match last_synced {
            Some(h) => h,
            None => sapling_activation(network),
        },
        r.1 == tip,
{
    let start = match last_synced {
        Some(h) => h,
        None => match sapling_activation_height(network) {
            Some(h) => h,
            None => 0,
        },
    };
    (start, tip)
}

/// Records the fetch of the history of `taddrs[i]` up to `tip`: the address
/// is marked used when its history held any transaction.
pub fn record_history(taddrs: &mut Vec<TransparentAddressSyncInfo>, i: usize, tip: u32, found_any: bool)
    requires
        i < old(taddrs)@.len(),
    ensures
        final(taddrs)@.len() == old(taddrs)@.len(),
        forall|j: int| 0 <= j < final(taddrs)@.len() && j != i ==> #[trigger] final(taddrs)@[j] == old(taddrs)@[j],
        final(taddrs)@[i as int].used == (old(taddrs)@[i as int].used || found_any),
        final(taddrs)@[i as int].height == Some(tip),
        final(taddrs)@[i as int].account_id == old(taddrs)@[i as int].account_id,
        final(taddrs)@[i as int].index == old(taddrs)@[i as int].index,
        final(taddrs)@[i as int].address == old(taddrs)@[i as int].address,
{
    let mut t = taddrs.remove(i);
    t.height = Some(tip);
    if found_any {
        t.used = true;
    }
    taddrs.insert(i, t);
    assert(forall|j: int| 0 <= j < i ==> final(taddrs)@[j] == old(taddrs)@[j]);
    assert(forall|j: int| i < j < final(taddrs)@.len() ==> final(taddrs)@[j] == old(taddrs)@[j]);
}

} // verus!
