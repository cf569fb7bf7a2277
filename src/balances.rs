//! Classifying a wallet's unspent outputs into the balances shown to a user.
use vstd::prelude::*;

use crate::consensus::{standard_marginal_fee, zip317_minimum_fee};
use crate::error::LightWalletError;

verus! {

/// One unspent note or UTXO of the wallet, as the wallet store lists it.
#[derive(Debug, Clone, Copy, PartialEq, Eq, Structural)]
pub struct UnspentNote {
    /// The height of the block that mined it, if it is mined.
    pub block_height: Option<u32>,
    /// Its value in zatoshis.
    pub value: u64,
    /// Its pool: 0 transparent, 1 sprout, 2 sapling, 3 orchard.
    pub output_pool: u8,
    /// Whether the wallet sent it to itself as change.
    pub is_change: bool,
}

/// Balances that may be presented to a user in a wallet app.
///
/// A simple view shows "Balance" as `spendable - minimum_fees +
/// immature_change + immature_income`, and beside it "Incoming" as
/// `incoming`: the unmined part of that income, and any unmined dust.
#[derive(Debug, Clone, Copy, PartialEq, Eq, Structural)]
pub struct UserBalances {
    /// Mature shielded value that is not dust: available for spending now.
    pub spendable: u64,
    /// Change, not dust, that is not yet spendable, mined or not.
    pub immature_change: u64,
    /// The least fee to spend the wallet's funds into a single note: one
    /// marginal fee for each of `spendable`, `immature_change` and
    /// `immature_income` that holds value, plus one for the receiving note,
    /// and never below the protocol's minimum fee.
    pub minimum_fees: u64,
    /// Income, not dust, that is not yet spendable: too few confirmations
    /// (none included), or held as UTXOs, which must be shielded first.
    pub immature_income: u64,
    /// Mined value in outputs worth less than the fee to spend them.
    pub dust: u64,
    /// Unmined value that is not change, dust included.
    pub incoming: u64,
    /// Unmined value that is not change and is dust.
    pub incoming_dust: u64,
}

/// The sum of `f` over `notes`.
pub open spec fn sum_by(notes: Seq<UnspentNote>, f: spec_fn(UnspentNote) -> nat) -> nat
    decreases notes.len(),
{
    if notes.len() == 0 {
        0
    } else {
        sum_by(notes.drop_last(), f) + f(notes.last())
    }
}

pub open spec fn is_dust(n: UnspentNote, fee: u64) -> bool {
    n.value < fee
}

/// Mined at or below the anchor height.
pub open spec fn is_mature(n: UnspentNote, anchor: u32) -> bool {
    n.block_height matches Some(h) && h <= anchor
}

/// Held in a shielded pool (sapling or orchard).
pub open spec fn is_shielded(n: UnspentNote) -> bool {
    n.output_pool > 1
}

pub open spec fn is_spendable(n: UnspentNote, anchor: u32, fee: u64) -> bool {
    !is_dust(n, fee) && is_mature(n, anchor) && is_shielded(n)
}

/// Change, not dust, that cannot be spent yet (mined or not).
pub open spec fn is_immature_change(n: UnspentNote, anchor: u32, fee: u64) -> bool {
    !is_dust(n, fee) && !(is_mature(n, anchor) && is_shielded(n)) && n.is_change
}

/// Income, not dust, that cannot be spent yet: too few confirmations
/// (none included), or held in the transparent pool.
pub open spec fn is_immature_income(n: UnspentNote, anchor: u32, fee: u64) -> bool {
    !is_dust(n, fee) && !(is_mature(n, anchor) && is_shielded(n)) && !n.is_change
}

pub open spec fn is_mined_dust(n: UnspentNote, fee: u64) -> bool {
    is_dust(n, fee) && n.block_height is Some
}

pub open spec fn is_incoming(n: UnspentNote) -> bool {
    !n.is_change && n.block_height is None
}

pub open spec fn is_incoming_dust(n: UnspentNote, fee: u64) -> bool {
    is_incoming(n) && is_dust(n, fee)
}

/// The value of `n` where `p` holds of it, else zero.
pub open spec fn value_if(p: bool, n: UnspentNote) -> nat {
    if p {
        n.value as nat
    } else {
        0
    }
}

/// The total value of `notes`.
pub open spec fn total_value(notes: Seq<UnspentNote>) -> nat {
    sum_by(notes, |n: UnspentNote| n.value as nat)
}

/// One marginal fee per bucket of spendable or maturing value that holds
/// any, plus one for the receiving note, and never below `minimum_fee`.
pub open spec fn minimum_fees_for(spendable: nat, immature_change: nat, immature_income: nat, fee: u64, minimum_fee: u64) -> nat {
    let units = (if spendable > 0 { 1nat } else { 0nat }) + (if immature_change > 0 { 1nat } else { 0nat }) + (
    if immature_income > 0 { 1nat } else { 0nat });
    if (units + 1) * fee < minimum_fee {
        minimum_fee as nat
    } else {
        ((units + 1) * fee) as nat
    }
}

/// The balances of `notes` with spending anchor `anchor` and marginal fee `fee`.
pub open spec fn balances_of(notes: Seq<UnspentNote>, anchor: u32, fee: u64, minimum_fee: u64) -> UserBalances {
    let spendable = sum_by(notes, |n: UnspentNote| value_if(is_spendable(n, anchor, fee), n));
    let immature_change = sum_by(notes, |n: UnspentNote| value_if(is_immature_change(n, anchor, fee), n));
    let immature_income = sum_by(notes, |n: UnspentNote| value_if(is_immature_income(n, anchor, fee), n));
    UserBalances {
        spendable: spendable as u64,
        immature_change: immature_change as u64,
        minimum_fees: minimum_fees_for(spendable, immature_change, immature_income, fee, minimum_fee) as u64,
        immature_income: immature_income as u64,
        dust: sum_by(notes, |n: UnspentNote| value_if(is_mined_dust(n, fee), n)) as u64,
        incoming: sum_by(notes, |n: UnspentNote| value_if(is_incoming(n), n)) as u64,
        incoming_dust: sum_by(notes, |n: UnspentNote| value_if(is_incoming_dust(n, fee), n)) as u64,
    }
}

/// A sum of a part of each value is at most the total value.
proof fn lemma_sum_below_total(notes: Seq<UnspentNote>, f: spec_fn(UnspentNote) -> nat)
    requires
        forall|n: UnspentNote| #[trigger] f(n) <= n.value,
    ensures
        sum_by(notes, f) <= total_value(notes),
    decreases notes.len(),
{
    if notes.len() > 0 {
        lemma_sum_below_total(notes.drop_last(), f);
    }
}

/// Sums over a prefix one longer add the next note's share.
proof fn lemma_sum_step(notes: Seq<UnspentNote>, f: spec_fn(UnspentNote) -> nat, i: int)
    requires
        0 <= i < notes.len(),
    ensures
        sum_by(notes.subrange(0, i + 1), f) == sum_by(notes.subrange(0, i), f) + f(notes[i]),
{
    assert(notes.subrange(0, i + 1).drop_last() =~= notes.subrange(0, i));
}

/// A prefix sum never exceeds the whole sum.
proof fn lemma_prefix_sum_le(notes: Seq<UnspentNote>, f: spec_fn(UnspentNote) -> nat, i: int)
    requires
        0 <= i <= notes.len(),
    ensures
        sum_by(notes.subrange(0, i), f) <= sum_by(notes, f),
    decreases notes.len() - i,
{
    if i < notes.len() {
        lemma_prefix_sum_le(notes, f, i + 1);
        lemma_sum_step(notes, f, i);
    } else {
        assert(notes.subrange(0, i) =~= notes);
    }
}

/// Classifies every note of `notes` in one pass, with `anchor_height` as the
/// highest height whose notes are mature, and `marginal_fee` as both the
/// dust threshold and the fee of one action.
pub fn bucket_balances(notes: &Vec<UnspentNote>, anchor_height: u32, marginal_fee: u64, minimum_fee: u64) -> (r: UserBalances)
    requires
        total_value(notes@) <= u64::MAX,
        marginal_fee <= u64::MAX / 4,
    ensures
        r == balances_of(notes@, anchor_height, marginal_fee, minimum_fee),
{
    let ghost s = notes@;
    let ghost a = anchor_height;
    let ghost f = marginal_fee;
    let ghost f_sp = |n: UnspentNote| value_if(is_spendable(n, a, f), n);
    let ghost f_ic = |n: UnspentNote| value_if(is_immature_change(n, a, f), n);
    let ghost f_ii = |n: UnspentNote| value_if(is_immature_income(n, a, f), n);
    let ghost f_du = |n: UnspentNote| value_if(is_mined_dust(n, f), n);
    let ghost f_in = |n: UnspentNote| value_if(is_incoming(n), n);
    let ghost f_id = |n: UnspentNote| value_if(is_incoming_dust(n, f), n);
    let ghost f_all = |n: UnspentNote| n.value as nat;
    let mut b = UserBalances {
        spendable: 0,
        immature_change: 0,
        minimum_fees: 0,
        immature_income: 0,
        dust: 0,
        incoming: 0,
        incoming_dust: 0,
    };
    let mut i: usize = 0;
    proof {
        lemma_prefix_sum_le(s, f_all, 0);
    }
    while i < notes.len()
        invariant
            s == notes@,
            a == anchor_height,
            f == marginal_fee,
            i <= s.len(),
            total_value(s) <= u64::MAX,
            b.spendable == sum_by(s.subrange(0, i as int), f_sp),
            b.immature_change == sum_by(s.subrange(0, i as int), f_ic),
            b.immature_income == sum_by(s.subrange(0, i as int), f_ii),
            b.dust == sum_by(s.subrange(0, i as int), f_du),
            b.incoming == sum_by(s.subrange(0, i as int), f_in),
            b.incoming_dust == sum_by(s.subrange(0, i as int), f_id),
            b.minimum_fees == 0,
            f_sp == (|n: UnspentNote| value_if(is_spendable(n, a, f), n)),
            f_ic == (|n: UnspentNote| value_if(is_immature_change(n, a, f), n)),
            f_ii == (|n: UnspentNote| value_if(is_immature_income(n, a, f), n)),
            f_du == (|n: UnspentNote| value_if(is_mined_dust(n, f), n)),
            f_in == (|n: UnspentNote| value_if(is_incoming(n), n)),
            f_id == (|n: UnspentNote| value_if(is_incoming_dust(n, f), n)),
            f_all == (|n: UnspentNote| n.value as nat),
        decreases s.len() - i,
    {
        let n = notes[i];
        proof {
            lemma_sum_step(s, f_sp, i as int);
            lemma_sum_step(s, f_ic, i as int);
            lemma_sum_step(s, f_ii, i as int);
            lemma_sum_step(s, f_du, i as int);
            lemma_sum_step(s, f_in, i as int);
            lemma_sum_step(s, f_id, i as int);
            lemma_sum_step(s, f_all, i as int);
            lemma_prefix_sum_le(s, f_all, i as int + 1);
            assert forall|m: UnspentNote| #[trigger] f_sp(m) <= m.value by {}
            assert forall|m: UnspentNote| #[trigger] f_ic(m) <= m.value by {}
            assert forall|m: UnspentNote| #[trigger] f_ii(m) <= m.value by {}
            assert forall|m: UnspentNote| #[trigger] f_du(m) <= m.value by {}
            assert forall|m: UnspentNote| #[trigger] f_in(m) <= m.value by {}
            assert forall|m: UnspentNote| #[trigger] f_id(m) <= m.value by {}
            lemma_sum_below_total(s.subrange(0, i as int + 1), f_sp);
            lemma_sum_below_total(s.subrange(0, i as int + 1), f_ic);
            lemma_sum_below_total(s.subrange(0, i as int + 1), f_ii);
            lemma_sum_below_total(s.subrange(0, i as int + 1), f_du);
            lemma_sum_below_total(s.subrange(0, i as int + 1), f_in);
            lemma_sum_below_total(s.subrange(0, i as int + 1), f_id);
        }
        let dust = n.value < marginal_fee;
        let shielded = n.output_pool > 1;
        let mature = match n.block_height {
            Some(h) => h <= anchor_height,
            None => false,
        };
        if !n.is_change && n.block_height.is_none() {
            b.incoming = b.incoming + n.value;
            if dust {
                b.incoming_dust = b.incoming_dust + n.value;
            }
        }
        if dust {
            if n.block_height.is_some() {
                b.dust = b.dust + n.value;
            }
        } else if mature && shielded {
            b.spendable = b.spendable + n.value;
        } else if n.is_change {
            b.immature_change = b.immature_change + n.value;
        } else {
            b.immature_income = b.immature_income + n.value;
        }
        i = i + 1;
    }
    proof {
        assert(s.subrange(0, i as int) =~= s);
    }
    let mut units: u64 = 1;
    if b.spendable > 0 {
        units = units + 1;
    }
    if b.immature_change > 0 {
        units = units + 1;
    }
    if b.immature_income > 0 {
        units = units + 1;
    }
    assert(units * marginal_fee <= 4 * marginal_fee) by (nonlinear_arith)
        requires
            units <= 4,
    ;
    let fees = units * marginal_fee;
    b.minimum_fees = if fees < minimum_fee { minimum_fee } else { fees };
    b
}

/// The balances of the wallet's unspent notes, given the anchor height that
/// `min_confirmations` yields, under the standard ZIP-317 fees. Fails with
/// `InvalidArgument` when `min_confirmations` is zero, and with `SyncFirst`
/// when the wallet has no anchor yet.
pub fn get_user_balances(min_confirmations: u32, anchor_height: Option<u32>, notes: &Vec<UnspentNote>) -> (r: Result<
    UserBalances,
    LightWalletError,
>)
    requires
        total_value(notes@) <= u64::MAX,
    ensures
        min_confirmations == 0 ==> (r matches Err(LightWalletError::InvalidArgument { message })
            && message@ == seq!['A', ' ', 'p', 'o', 's', 'i', 't', 'i', 'v', 'e', ' ', 'i', 'n', 't', 'e', 'g', 'e', 'r', ' ', 'i', 's', ' ', 'r', 'e', 'q', 'u', 'i', 'r', 'e', 'd', '.']),
        min_confirmations > 0 && anchor_height is None ==> r == Err::<UserBalances, LightWalletError>(
            LightWalletError::SyncFirst,
        ),
        min_confirmations > 0 && anchor_height is Some ==> r == Ok::<UserBalances, LightWalletError>(
            balances_of(notes@, anchor_height->0, 5_000, 10_000),
        ),
{
    if min_confirmations == 0 {
        let message = String::from_str("A positive integer is required.");
        proof {
            reveal_strlit("A positive integer is required.");
            assert(message@ =~= seq!['A', ' ', 'p', 'o', 's', 'i', 't', 'i', 'v', 'e', ' ', 'i', 'n', 't', 'e', 'g', 'e', 'r', ' ', 'i', 's', ' ', 'r', 'e', 'q', 'u', 'i', 'r', 'e', 'd', '.']);
        }
        return Err(LightWalletError::InvalidArgument { message });
    }
    match anchor_height {
        None => Err(LightWalletError::SyncFirst),
        Some(anchor) => {
            let marginal_fee = standard_marginal_fee();
            let minimum_fee = zip317_minimum_fee();
            Ok(bucket_balances(notes, anchor, marginal_fee, minimum_fee))
        },
    }
}

/// Whether the total value of `notes` fits in a `u64`, as
/// `get_user_balances` requires.
pub fn total_value_fits(notes: &Vec<UnspentNote>) -> (r: bool)
    ensures
        r == (total_value(notes@) <= u64::MAX),
{
    let ghost s = notes@;
    let ghost f_all = |n: UnspentNote| n.value as nat;
    let mut sum: u64 = 0;
    let mut i: usize = 0;
    while i < notes.len()
        invariant
            s == notes@,
            i <= s.len(),
            f_all == (|n: UnspentNote| n.value as nat),
            sum == sum_by(s.subrange(0, i as int), f_all),
        decreases s.len() - i,
    {
        proof {
            lemma_sum_step(s, f_all, i as int);
        }
        if sum > u64::MAX - notes[i].value {
            proof {
                lemma_prefix_sum_le(s, f_all, i as int + 1);
            }
            return false;
        }
        sum = sum + notes[i].value;
        i = i + 1;
    }
    assert(s.subrange(0, i as int) =~= s);
    true
}

} // verus!
