use tokio_util::sync::CancellationToken;
use zcash_sync_core::balances::{total_value_fits, UnspentNote};
use zcash_sync_core::consensus::{parse_network, ChainType};
use zcash_sync_core::error::{Error, LightWalletError, TransportCode};
use zcash_sync_core::interop::{cancel, get_birthday_heights, get_unshielded_utxos, CancellationRegistry};
use zcash_sync_core::lightwallet::{lightwallet_deinitialize, LightClientRegistry};

#[test]
fn birthday_defaults_to_sapling_activation() {
    let b = get_birthday_heights(ChainType::Mainnet, 0, None, Some(500_000));
    assert_eq!(b.birthday_height, 419_200);
    assert_eq!(b.rebirth_height, Some(500_000));
    let b = get_birthday_heights(ChainType::Testnet, 0, None, None);
    assert_eq!(b.birthday_height, 280_000);
    assert_eq!(b.original_birthday_height, 280_000);
    let b = get_birthday_heights(ChainType::Mainnet, 0, Some(500_123), None);
    assert_eq!((b.original_birthday_height, b.birthday_height), (500_123, 500_123));
    let b = get_birthday_heights(ChainType::Testnet, 1_234, Some(300_001), None);
    assert_eq!((b.original_birthday_height, b.birthday_height), (1_234, 300_001));
}

#[test]
fn unshielded_utxos_keep_rows() {
    let notes = get_unshielded_utxos(vec![(5, "t1a".to_string()), (7, "t1b".to_string())]);
    assert_eq!(notes.len(), 2);
    assert_eq!((notes[0].value, notes[0].recipient.as_str()), (5, "t1a"));
    assert_eq!((notes[1].value, notes[1].recipient.as_str()), (7, "t1b"));
    assert!(get_unshielded_utxos(Vec::new()).is_empty());
}

#[test]
fn cancel_fires_registered_token() {
    let mut registry = CancellationRegistry::new();
    let token = CancellationToken::new();
    let id = registry.register(token.clone());
    assert_eq!(id, 1);
    let other = CancellationToken::new();
    let id2 = registry.register(other.clone());
    assert_eq!(id2, 2);
    assert!(cancel(&mut registry, id).is_ok());
    assert!(token.is_cancelled());
    assert!(!other.is_cancelled());
    assert!(cancel(&mut registry, 99).is_ok());
    registry.release(id2);
    assert!(cancel(&mut registry, id2).is_ok());
    assert!(!other.is_cancelled());
}

#[test]
fn deinitialize_removes_client_once() {
    let mut registry: LightClientRegistry<String> = LightClientRegistry::new();
    let h = registry.add("client".to_string());
    assert_eq!(h, 1);
    assert_eq!(registry.get(h).unwrap(), "client");
    assert!(lightwallet_deinitialize(&mut registry, h));
    assert!(!lightwallet_deinitialize(&mut registry, h));
    assert_eq!(registry.get(h), Err(LightWalletError::InvalidHandle));
}

#[test]
fn errors_map_to_interface_errors() {
    let cancelled = Error::Transport { code: TransportCode::Cancelled, message: "c".to_string() };
    assert_eq!(LightWalletError::from_error(cancelled), LightWalletError::Canceled);
    assert_eq!(LightWalletError::from_error(Error::Canceled), LightWalletError::Canceled);
    assert_eq!(LightWalletError::from_error(Error::SyncFirst), LightWalletError::SyncFirst);
    assert_eq!(
        LightWalletError::from_error(Error::Internal("boom".to_string())),
        LightWalletError::Other { message: "boom".to_string() }
    );
    assert_eq!(
        LightWalletError::from_error(Error::InsufficientFunds { required: 10, available: 3 }),
        LightWalletError::InsufficientFunds { required: 10, available: 3 }
    );
    assert_eq!(
        LightWalletError::from_error(Error::Storage("disk full".to_string())),
        LightWalletError::SqliteClientError { message: "disk full".to_string() }
    );
    assert_eq!(
        LightWalletError::from_error(Error::InvalidArgument("bad".to_string())),
        LightWalletError::InvalidArgument { message: "bad".to_string() }
    );
    assert_eq!(
        LightWalletError::from_error(Error::SendFailed { code: 18, reason: "dust".to_string() }),
        LightWalletError::Other { message: "dust".to_string() }
    );
    assert_eq!(
        LightWalletError::from_error(Error::BlockNotFound(9)),
        LightWalletError::Other { message: "Block not found in cache".to_string() }
    );
    let other = Error::Transport { code: TransportCode::Other, message: "unavailable".to_string() };
    assert_eq!(LightWalletError::from_error(other), LightWalletError::Other { message: "unavailable".to_string() });
}

#[test]
fn node_chain_names() {
    assert_eq!(parse_network(&"main".to_string()), Ok(ChainType::Mainnet));
    assert_eq!(parse_network(&"test".to_string()), Ok(ChainType::Testnet));
    assert_eq!(parse_network(&"regtest".to_string()), Err(Error::Internal("Unknown network: regtest".to_string())));
}

#[test]
fn balance_sums_must_fit() {
    let n = |value| UnspentNote { block_height: Some(1), value, output_pool: 2, is_change: false };
    assert!(total_value_fits(&vec![n(u64::MAX - 1), n(1)]));
    assert!(!total_value_fits(&vec![n(u64::MAX), n(1)]));
    assert!(total_value_fits(&Vec::new()));
}
