use zcash_sync_core::balances::{bucket_balances, get_user_balances, UnspentNote, UserBalances};
use zcash_sync_core::error::LightWalletError;

fn note(block_height: Option<u32>, value: u64, output_pool: u8, is_change: bool) -> UnspentNote {
    UnspentNote { block_height, value, output_pool, is_change }
}

fn zero() -> UserBalances {
    UserBalances { spendable: 0, immature_change: 0, minimum_fees: 0, immature_income: 0, dust: 0, incoming: 0, incoming_dust: 0 }
}

#[test]
fn zero_confirmation_note_is_immature_income() {
    let b = bucket_balances(&vec![note(None, 100_000, 2, false)], 1_000, 5_000, 10_000);
    assert_eq!(b.immature_income, 100_000);
    assert_eq!((b.spendable, b.immature_change, b.dust), (0, 0, 0));
    // Bucket unit plus receiving-note unit: 5,000 + 5,000, at the 10,000 floor.
    assert_eq!(b.minimum_fees, 10_000);
    // Still unmined, so it is also shown as incoming.
    assert_eq!(b.incoming, 100_000);
    assert_eq!(b.incoming_dust, 0);
}

#[test]
fn minimum_fee_floor_applies_above_the_sum() {
    let b = bucket_balances(&vec![note(None, 100_000, 2, false)], 1_000, 5_000, 12_000);
    assert_eq!(b.minimum_fees, 12_000);
    let b = bucket_balances(&vec![note(None, 100_000, 2, false)], 1_000, 5_000, 9_000);
    assert_eq!(b.minimum_fees, 10_000);
}

#[test]
fn immature_income_note() {
    let b = bucket_balances(&vec![note(Some(1_001), 100_000, 2, false)], 1_000, 5_000, 10_000);
    assert_eq!(b, UserBalances { immature_income: 100_000, minimum_fees: 10_000, ..zero() });
}

#[test]
fn mature_note_is_spendable() {
    let b = bucket_balances(&vec![note(Some(900), 100_000, 2, false)], 1_000, 5_000, 10_000);
    assert_eq!(b, UserBalances { spendable: 100_000, minimum_fees: 10_000, ..zero() });
    let notes = vec![note(Some(1), 20_000, 2, false), note(Some(2), 30_000, 3, false), note(Some(3), 40_000, 2, true)];
    let b = bucket_balances(&notes, 1_000, 5_000, 10_000);
    assert_eq!(b.spendable, 90_000);
    assert_eq!(b.minimum_fees, 10_000);
}

#[test]
fn one_fee_unit_per_bucket() {
    let notes = vec![
        note(Some(10), 50_000, 2, false),   // spendable
        note(Some(11), 60_000, 3, false),   // spendable
        note(Some(2_000), 70_000, 2, true), // immature change
        note(Some(2_000), 80_000, 2, false), // immature income
    ];
    let b = bucket_balances(&notes, 1_000, 5_000, 10_000);
    assert_eq!((b.spendable, b.immature_change, b.immature_income), (110_000, 70_000, 80_000));
    assert_eq!(b.minimum_fees, 20_000);
}

#[test]
fn change_dust_and_transparent() {
    let notes = vec![
        note(Some(1_500), 60_000, 2, true),   // immature change
        note(Some(10), 4_000, 2, false),      // mined dust
        note(None, 3_000, 0, false),          // incoming dust
        note(Some(10), 70_000, 0, false),     // mature UTXO: immature income
        note(None, 8_000, 2, true),           // unconfirmed change: immature change
    ];
    let b = bucket_balances(&notes, 1_000, 5_000, 10_000);
    assert_eq!(b.immature_change, 68_000);
    assert_eq!(b.dust, 4_000);
    assert_eq!(b.incoming, 3_000);
    assert_eq!(b.incoming_dust, 3_000);
    assert_eq!(b.immature_income, 70_000);
    assert_eq!(b.spendable, 0);
    assert_eq!(b.minimum_fees, 15_000);
}

#[test]
fn empty_wallet_pays_receiving_note_at_floor() {
    assert_eq!(bucket_balances(&Vec::new(), 10, 5_000, 10_000), UserBalances { minimum_fees: 10_000, ..zero() });
}

#[test]
fn user_balances_errors_and_standard_fees() {
    let notes = vec![note(Some(900), 100_000, 2, false)];
    assert_eq!(
        get_user_balances(0, Some(1_000), &notes),
        Err(LightWalletError::InvalidArgument { message: "A positive integer is required.".to_string() })
    );
    assert_eq!(get_user_balances(3, None, &notes), Err(LightWalletError::SyncFirst));
    let b = get_user_balances(3, Some(1_000), &notes).unwrap();
    assert_eq!(b.spendable, 100_000);
    assert_eq!(b.minimum_fees, 10_000);
    // The standard marginal fee is the dust threshold.
    let b = get_user_balances(1, Some(1_000), &vec![note(Some(900), 4_999, 2, false)]).unwrap();
    assert_eq!(b.dust, 4_999);
}
