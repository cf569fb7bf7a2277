use zcash_sync_core::consensus::ChainType;
use zcash_sync_core::error::Error;
use zcash_sync_core::submission::submission_outcome;
use zcash_sync_core::discovery::{record_history, transparent_history_range, TransparentAddressSyncInfo};
use zcash_sync_core::interop::{Pool, TransactionNote};
use zcash_sync_core::transactions::{classify_note, gather_transactions, note_role, NoteRole, Transaction};

fn note(value: u64) -> TransactionNote {
    TransactionNote { recipient: format!("zs{}", value), pool: Pool::Sapling, value, memo: None }
}

fn row(txid: u8, incoming: Vec<TransactionNote>, outgoing: Vec<TransactionNote>, change: Vec<TransactionNote>) -> Transaction {
    Transaction {
        account_id: 0,
        txid: vec![txid; 32],
        block_time: Some(1_700_000_000),
        mined_height: Some(100),
        expired_unmined: false,
        account_balance_delta: 5,
        fee: Some(10_000),
        outgoing,
        incoming,
        change,
    }
}

#[test]
fn rows_of_one_transaction_are_merged() {
    let rows = vec![
        row(1, vec![note(1)], vec![], vec![]),
        row(1, vec![note(2)], vec![note(3)], vec![]),
        row(2, vec![], vec![], vec![note(4)]),
        row(1, vec![note(5)], vec![], vec![]),
    ];
    let txs = gather_transactions(rows);
    assert_eq!(txs.len(), 3);
    assert_eq!(txs[0].incoming.iter().map(|n| n.value).collect::<Vec<u64>>(), vec![1, 2]);
    assert_eq!(txs[0].outgoing.len(), 1);
    assert_eq!(txs[1].change[0].value, 4);
    assert_eq!(txs[2].incoming[0].value, 5);
    assert!(gather_transactions(Vec::new()).is_empty());
}

#[test]
fn change_and_send_to_self() {
    assert_eq!(note_role(0, Some(0), Some(0), 2, true), NoteRole { change: true, incoming: false, outgoing: false });
    assert_eq!(note_role(0, Some(0), Some(0), 0, true), NoteRole { change: false, incoming: true, outgoing: true });
    assert_eq!(note_role(0, Some(0), Some(0), 3, false), NoteRole { change: false, incoming: true, outgoing: true });
    assert_eq!(note_role(0, None, Some(0), 2, true), NoteRole { change: false, incoming: true, outgoing: false });
    assert_eq!(note_role(0, Some(0), None, 2, true), NoteRole { change: false, incoming: false, outgoing: true });
}

#[test]
fn memo_text_decides_change() {
    // An empty memo is 0xF6 followed by zeros: no user text.
    let mut empty = vec![0u8; 512];
    empty[0] = 0xF6;
    assert!(classify_note(0, Some(0), Some(0), 2, &empty).change);
    // A text memo makes the note a payment to self rather than change.
    let text = b"rent".to_vec();
    let role = classify_note(0, Some(0), Some(0), 2, &text);
    assert!(!role.change && role.incoming && role.outgoing);
}

#[test]
fn transparent_history_range_starts_at_sapling_for_new_addresses() {
    assert_eq!(transparent_history_range(ChainType::Mainnet, None, 2_000_000), (419_200, 2_000_000));
    assert_eq!(transparent_history_range(ChainType::Testnet, None, 300_000), (280_000, 300_000));
    assert_eq!(transparent_history_range(ChainType::Mainnet, Some(1_500_000), 2_000_000), (1_500_000, 2_000_000));
}

#[test]
fn history_marks_address_used() {
    let mut taddrs = vec![
        TransparentAddressSyncInfo { account_id: 0, index: 0, address: "t1a".to_string(), height: None, used: false },
        TransparentAddressSyncInfo { account_id: 0, index: 1, address: "t1b".to_string(), height: None, used: false },
    ];
    record_history(&mut taddrs, 1, 500, true);
    record_history(&mut taddrs, 0, 500, false);
    assert!(taddrs[1].used);
    assert!(!taddrs[0].used);
    assert_eq!(taddrs[0].height, Some(500));
    assert_eq!(taddrs[1].address, "t1b");
}

#[test]
fn node_refusal_is_reported_verbatim() {
    assert_eq!(submission_outcome(0, String::new()), Ok(()));
    assert_eq!(
        submission_outcome(-26, "bad-txns-inputs-spent".to_string()),
        Err(Error::SendFailed { code: -26, reason: "bad-txns-inputs-spent".to_string() })
    );
}
