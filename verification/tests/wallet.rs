use eth_wallet::session::tag_delivery;
use eth_wallet::Address;
use eth_wallet::EthWallet;
use eth_wallet::ParseError;
use eth_wallet::ProviderError;
use eth_wallet::RecvError;

fn addr(b: u8) -> Address {
    Address([b; 20])
}

#[test]
fn empty_before_ready() {
    let mut w = EthWallet::new();
    assert_eq!(w.chain_id, 0);
    assert!(w.accounts.is_empty());
    let _req = w.connect();
    assert!(matches!(w.recv_account(), Err(RecvError::Empty)));
    assert!(matches!(w.recv_signature(), Err(RecvError::Empty)));
    assert!(matches!(w.recv_transaction(), Err(RecvError::Empty)));
    assert!(matches!(w.recv_call(), Err(RecvError::Empty)));
}

#[test]
fn single_producer_cycle() {
    let mut w = EthWallet::new();
    let req = w.connect();
    req.reply.try_send(Ok((vec![addr(0xAA)], 1))).unwrap();
    let (_, chain) = w.recv_account().unwrap();
    assert_eq!(chain, 1);
    assert!(matches!(w.recv_account(), Err(RecvError::Empty)));
    assert!(matches!(w.recv_account(), Err(RecvError::Empty)));
}

#[test]
fn example_scenario_applies_chain_id() {
    let mut w = EthWallet::new();
    let req = w.connect();
    req.reply.try_send(Ok((vec![addr(0xAA)], 1))).unwrap();
    let (hex, chain) = w.recv_account().unwrap();
    assert_eq!(chain, 1);
    assert_eq!(w.chain_id, 1);
    assert_eq!(w.accounts, vec![addr(0xAA)]);
    assert_eq!(hex, chamomile_types::PeerId([0xAA; 20]).to_hex());
    assert!(hex.starts_with("0x"));
    assert_eq!(hex.len(), 42);
}

#[test]
fn atomic_state_update() {
    let mut w = EthWallet::new();
    let req = w.connect();
    req.reply.try_send(Ok((vec![addr(1), addr(2)], 7))).unwrap();
    req.reply.try_send(Ok((vec![addr(3)], 9))).unwrap();
    let (_, c1) = w.recv_account().unwrap();
    assert_eq!(c1, 7);
    assert_eq!(w.chain_id, 7);
    assert_eq!(w.accounts, vec![addr(1), addr(2)]);
    let (_, c2) = w.recv_account().unwrap();
    assert_eq!(c2, 9);
    assert_eq!(w.chain_id, 9);
    assert_eq!(w.accounts, vec![addr(3)]);
}

#[test]
fn ordering_under_concurrency() {
    let mut w = EthWallet::new();
    let r1 = w.sign("0x1111111111111111111111111111111111111111", "one".to_string()).unwrap();
    let r2 = w.sign("0x2222222222222222222222222222222222222222", "two".to_string()).unwrap();
    assert_eq!(r1.message, "one");
    assert_eq!(r2.from, Address([0x22; 20]));
    r2.reply.try_send(Ok(vec![2u8; 65])).unwrap();
    r1.reply.try_send(Ok(vec![1u8; 65])).unwrap();
    assert_eq!(w.recv_signature().unwrap(), vec![2u8; 65]);
    assert_eq!(w.recv_signature().unwrap(), vec![1u8; 65]);
    assert!(matches!(w.recv_signature(), Err(RecvError::Empty)));
}

#[test]
fn closed_is_terminal() {
    let mut w = EthWallet::new();
    let req = w.connect();
    req.reply.close();
    assert!(matches!(w.recv_account(), Err(RecvError::Closed)));
    assert!(matches!(w.recv_account(), Err(RecvError::Closed)));
    assert!(matches!(w.recv_account(), Err(RecvError::Closed)));
}

#[test]
fn close_drains_pending_results_first() {
    let mut w = EthWallet::new();
    let req = w.sign("0x1111111111111111111111111111111111111111", "m".to_string()).unwrap();
    req.reply.try_send(Ok(vec![5u8; 65])).unwrap();
    req.reply.close();
    assert_eq!(w.recv_signature().unwrap(), vec![5u8; 65]);
    assert!(matches!(w.recv_signature(), Err(RecvError::Closed)));
    assert!(matches!(w.recv_signature(), Err(RecvError::Closed)));
}

#[test]
fn closed_is_terminal_for_every_kind() {
    let mut w = EthWallet::new();
    let t = w.send("0x1111111111111111111111111111111111111111", addr(2), vec![]).unwrap();
    t.reply.close();
    assert!(matches!(w.recv_transaction(), Err(RecvError::Closed)));
    assert!(matches!(w.recv_transaction(), Err(RecvError::Closed)));
    let c = w.call(addr(3), vec![]);
    c.reply.close();
    assert!(matches!(w.recv_call(), Err(RecvError::Closed)));
    assert!(matches!(w.recv_call(), Err(RecvError::Closed)));
    assert_eq!(w.chain_id, 0);
    assert!(w.accounts.is_empty());
}

#[test]
fn provider_failure_is_observable() {
    let mut w = EthWallet::new();
    let req = w.connect();
    req.reply.try_send(Err(ProviderError { message: "user declined".to_string() })).unwrap();
    match w.recv_account() {
        Err(RecvError::Provider(pe)) => assert_eq!(pe.message, "user declined"),
        other => panic!("unexpected poll outcome: {:?}", other),
    }
    assert_eq!(w.chain_id, 0);
    assert!(w.accounts.is_empty());
    assert!(matches!(w.recv_account(), Err(RecvError::Empty)));
}

#[test]
fn empty_account_list_is_a_provider_error() {
    let mut w = EthWallet::new();
    let req = w.connect();
    req.reply.try_send(Ok((vec![], 5))).unwrap();
    assert!(matches!(w.recv_account(), Err(RecvError::Provider(_))));
    assert_eq!(w.chain_id, 0);
    assert!(w.accounts.is_empty());
}

#[test]
fn apply_account_result_stores_the_delivered_pair() {
    let mut w = EthWallet::new();
    let r = w.apply_account_result(Ok((vec![addr(0x42), addr(0x43)], 11)));
    let (hex, chain) = r.unwrap();
    assert_eq!(chain, 11);
    assert_eq!(w.chain_id, 11);
    assert_eq!(w.accounts, vec![addr(0x42), addr(0x43)]);
    assert_eq!(hex, chamomile_types::PeerId([0x42; 20]).to_hex());
    let e = w.apply_account_result(Err(ProviderError { message: "declined".to_string() }));
    assert!(matches!(e, Err(RecvError::Provider(_))));
    assert_eq!(w.chain_id, 11);
    assert_eq!(w.accounts, vec![addr(0x42), addr(0x43)]);
}

#[test]
fn tag_delivery_routes_each_shape() {
    assert_eq!(tag_delivery(Ok(Ok(vec![7u8]))), Ok(vec![7u8]));
    let pe = ProviderError { message: "failed".to_string() };
    assert_eq!(tag_delivery(Ok(Err(pe.clone()))), Err(RecvError::Provider(pe)));
    assert_eq!(tag_delivery(Err(RecvError::Empty)), Err(RecvError::Empty));
    assert_eq!(tag_delivery(Err(RecvError::Closed)), Err(RecvError::Closed));
}

#[test]
fn malformed_account_is_reported_synchronously() {
    let w = EthWallet::new();
    assert!(matches!(w.sign("xyz", "m".to_string()), Err(ParseError::BadAddress)));
    assert!(matches!(w.sign("0x11", "m".to_string()), Err(ParseError::BadAddress)));
    assert!(matches!(w.send("not hex", addr(2), vec![]), Err(ParseError::BadAddress)));
}

#[test]
fn send_and_call_carry_their_inputs() {
    let mut w = EthWallet::new();
    let s = w.send("0x0101010101010101010101010101010101010101", addr(9), vec![1, 2, 3]).unwrap();
    assert_eq!(s.from, Address([0x01; 20]));
    assert_eq!(s.to, addr(9));
    assert_eq!(s.data, vec![1, 2, 3]);
    s.reply.try_send(Ok(vec![0xAB; 32])).unwrap();
    assert_eq!(w.recv_transaction().unwrap(), vec![0xAB; 32]);
    let c = w.call(addr(7), vec![9]);
    assert_eq!(c.to, addr(7));
    assert_eq!(c.data, vec![9]);
    c.reply.try_send(Ok(vec![0xFE])).unwrap();
    assert_eq!(w.recv_call().unwrap(), vec![0xFE]);
}
