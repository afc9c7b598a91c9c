use kakarot_rpc::errors::EthApiError;
use kakarot_rpc::pool::{
    inspect_listing, txpool_content, txpool_content_from, txpool_inspect, txpool_status, PoolDataProvider,
    PoolTransaction, TxpoolContent, TxpoolInspectSummary, TxpoolStatus,
};
use kakarot_rpc::types::{Address, U256};

fn address(b: u8) -> Address {
    Address { bytes: [b; 20] }
}

fn tx(from: u8, nonce: u64, value: u64, gas_price: Option<u128>) -> PoolTransaction {
    PoolTransaction {
        from: address(from),
        to: Some(address(0xee)),
        nonce,
        value: U256::from_u64(value),
        gas: U256::from_u64(21000),
        gas_price,
    }
}

fn summary(t: &PoolTransaction) -> TxpoolInspectSummary {
    TxpoolInspectSummary { to: t.to, value: t.value, gas: t.gas, gas_price: t.gas_price.unwrap_or(0) }
}

fn content() -> TxpoolContent<u32> {
    TxpoolContent {
        pending: vec![
            (address(1), vec![("0".to_string(), 10), ("1".to_string(), 11)]),
            (address(2), vec![("5".to_string(), 25)]),
        ],
        queued: vec![(address(1), vec![("7".to_string(), 17)])],
    }
}

#[test]
fn inspect_last_write_wins() {
    let first = tx(0xaa, 0, 100, Some(3));
    let second = tx(0xaa, 0, 200, Some(3));
    let r = txpool_inspect(Ok(vec![first, second])).unwrap();
    assert_eq!(r.pending, vec![(address(0xaa), vec![("0".to_string(), summary(&second))])]);
    assert!(r.queued.is_empty());
}

#[test]
fn inspect_groups_by_sender_and_nonce() {
    let a0 = tx(1, 0, 1, Some(9));
    let b3 = tx(2, 3, 2, None);
    let a12 = tx(1, 12, 3, Some(4));
    let r = inspect_listing(&vec![a0, b3, a12]);
    assert_eq!(
        r.pending,
        vec![
            (address(1), vec![("0".to_string(), summary(&a0)), ("12".to_string(), summary(&a12))]),
            (address(2), vec![("3".to_string(), summary(&b3))]),
        ]
    );
}

#[test]
fn inspect_unset_gas_price_is_zero() {
    let r = inspect_listing(&vec![tx(4, 1234, 5, None)]);
    assert_eq!(r.pending.len(), 1);
    assert_eq!(r.pending[0].1[0].0, "1234");
    assert_eq!(r.pending[0].1[0].1.gas_price, 0);
}

#[test]
fn inspect_large_nonce_key() {
    let r = inspect_listing(&vec![tx(4, u64::MAX, 5, Some(1))]);
    assert_eq!(r.pending[0].1[0].0, "18446744073709551615");
}

#[test]
fn empty_listing_gives_empty_results() {
    let empty: TxpoolContent<u32> = TxpoolContent { pending: Vec::new(), queued: Vec::new() };
    assert_eq!(txpool_status(Ok(empty.clone())), Ok(TxpoolStatus { pending: 0, queued: 0 }));
    let r = txpool_inspect(Ok(Vec::new())).unwrap();
    assert!(r.pending.is_empty() && r.queued.is_empty());
    let c = txpool_content(Ok(empty)).unwrap();
    assert!(c.pending.is_empty() && c.queued.is_empty());
}

#[test]
fn content_from_absent_sender_is_empty() {
    let r = txpool_content_from(Ok(content()), &address(9)).unwrap();
    assert!(r.pending.is_empty());
    assert!(r.queued.is_empty());
}

#[test]
fn content_from_present_sender() {
    let r = txpool_content_from(Ok(content()), &address(1)).unwrap();
    assert_eq!(r.pending, vec![("0".to_string(), 10), ("1".to_string(), 11)]);
    assert_eq!(r.queued, vec![("7".to_string(), 17)]);
    let r2 = txpool_content_from(Ok(content()), &address(2)).unwrap();
    assert_eq!(r2.pending, vec![("5".to_string(), 25)]);
    assert!(r2.queued.is_empty());
}

#[test]
fn status_counts_partitions() {
    assert_eq!(txpool_status(Ok(content())), Ok(TxpoolStatus { pending: 2, queued: 1 }));
}

#[test]
fn failures_propagate() {
    let e = EthApiError::Backend { code: 7, message: "db down".to_string() };
    assert_eq!(txpool_status::<u32>(Err(e.clone())), Err(e.clone()));
    assert_eq!(txpool_inspect(Err(e.clone())), Err(e.clone()));
    assert_eq!(txpool_content_from::<u32>(Err(e.clone()), &address(1)), Err(e.clone()));
    assert_eq!(txpool_content::<u32>(Err(e.clone())), Err(e));
}

#[test]
fn content_is_unchanged() {
    assert_eq!(txpool_content(Ok(content())), Ok(content()));
}

#[test]
fn pool_data_provider_new_keeps_provider() {
    let p = PoolDataProvider::new(17u8);
    assert_eq!(p.eth_provider, 17u8);
}
