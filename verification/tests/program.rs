use anchor_client::codec::tagged_body;
use anchor_client::{
    AccountFilter, Address, ClientError, Commitment, Config, Program, RawAccount,
    SubscriptionState,
};

const TAG: [u8; 8] = [1, 2, 3, 4, 5, 6, 7, 8];

#[derive(Debug, Default, PartialEq)]
struct Counter {
    value: u16,
}

fn decode_counter(data: &Vec<u8>) -> Option<Counter> {
    let body = tagged_body(data, &TAG)?;
    if body.len() != 2 {
        return None;
    }
    Some(Counter { value: u16::from_le_bytes([body[0], body[1]]) })
}

fn addr(b: u8) -> Address {
    Address::new([b; 32])
}

fn program(options: Option<Commitment>) -> Program {
    let cfg = Config { cluster: "http://localhost:8899".to_string(), payer: addr(2), options };
    Program::new(addr(1), cfg, None).unwrap()
}

fn tagged(rest: &[u8]) -> Vec<u8> {
    let mut v = TAG.to_vec();
    v.extend_from_slice(rest);
    v
}

fn raw(b: u8, data: Vec<u8>) -> RawAccount {
    RawAccount { address: addr(b), data }
}

#[test]
fn a_program_keeps_its_configuration() {
    let p = program(Some(Commitment::Processed));
    assert_eq!(p.id().bytes, [1; 32]);
    assert_eq!(p.payer().bytes, [2; 32]);
    assert_eq!(p.commitment(), Commitment::Processed);
    assert_eq!(program(None).commitment(), Commitment::Finalized);
    assert!(p.needs_subscription_client());
    let b = p.request();
    assert_eq!(b.program_id.bytes, [1; 32]);
    assert_eq!(b.payer.bytes, [2; 32]);
    assert_eq!(b.cluster, "http://localhost:8899");
    assert_eq!(b.options, Commitment::Processed);
}

#[test]
fn a_program_is_blocking_where_it_has_a_runtime() {
    let cfg = || Config { cluster: "c".to_string(), payer: addr(2), options: None };
    assert!(!Program::new(addr(1), cfg(), None).unwrap().blocking);
    assert!(Program::new(addr(1), cfg(), Some(Ok(()))).unwrap().blocking);
    let p = Program::new_with_rpc(addr(1), cfg(), Some(Ok(()))).unwrap();
    assert!(p.blocking);
    assert!(p.needs_subscription_client());
    assert_eq!(p.id().bytes, [1; 32]);
    assert!(!Program::new_with_rpc(addr(1), cfg(), None).unwrap().blocking);
}

#[test]
fn a_runtime_that_cannot_start_is_a_runtime_init_error() {
    let cfg = Config { cluster: "c".to_string(), payer: addr(2), options: None };
    match Program::new(addr(1), cfg.clone(), Some(Err("too many threads".to_string()))) {
        Err(ClientError::RuntimeInit(reason)) => assert_eq!(reason, "too many threads"),
        other => panic!("{:?}", other),
    }
    assert!(matches!(
        Program::new_with_rpc(addr(1), cfg, Some(Err("x".to_string()))),
        Err(ClientError::RuntimeInit(_))
    ));
}

#[test]
fn an_account_is_fetched_at_the_configured_commitment() {
    let r = program(Some(Commitment::Confirmed)).account_request(addr(9));
    assert_eq!(r.address.bytes, [9; 32]);
    assert_eq!(r.commitment, Commitment::Confirmed);
}

#[test]
fn zeroed_account_bytes_decode_to_the_default_value() {
    let p = program(None);
    let got = p.account(Ok(Some(tagged(&[0x00, 0x00]))), &decode_counter).unwrap();
    assert_eq!(got, Counter::default());
}

#[test]
fn corrupted_account_bytes_are_a_decode_error() {
    let p = program(None);
    let got = p.account(Ok(Some(vec![0xFF, 0xFF])), &decode_counter);
    assert!(matches!(got, Err(ClientError::Decode)));
    assert!(got.unwrap_err().is_decode());
}

#[test]
fn an_account_is_what_the_codec_decodes() {
    let p = program(None);
    let bytes = tagged(&[0x34, 0x12]);
    let direct = decode_counter(&bytes).unwrap();
    assert_eq!(direct, Counter { value: 0x1234 });
    assert_eq!(p.account(Ok(Some(bytes)), &decode_counter).unwrap(), direct);
}

#[test]
fn a_missing_account_and_a_failed_fetch_are_transport_errors() {
    let p = program(None);
    match p.account(Ok(None), &decode_counter) {
        Err(ClientError::Transport(reason)) => assert_eq!(reason, "account not found"),
        other => panic!("{:?}", other),
    }
    match p.account(Err("connection refused".to_string()), &decode_counter) {
        Err(ClientError::Transport(reason)) => assert_eq!(reason, "connection refused"),
        other => panic!("{:?}", other),
    }
}

#[test]
fn the_tag_filter_comes_before_the_callers_filters() {
    let p = program(Some(Commitment::Confirmed));
    let filters = vec![
        AccountFilter::DataSize(10),
        AccountFilter::Bytes { offset: 8, bytes: vec![1] },
    ];
    let r = p.accounts_request(&TAG, filters);
    assert_eq!(r.program_id.bytes, [1; 32]);
    assert_eq!(r.commitment, Commitment::Confirmed);
    assert_eq!(r.filters.len(), 3);
    match &r.filters[0] {
        AccountFilter::Bytes { offset, bytes } => {
            assert_eq!(*offset, 0);
            assert_eq!(bytes, &TAG.to_vec());
        },
        other => panic!("{:?}", other),
    }
    assert!(matches!(r.filters[1], AccountFilter::DataSize(10)));
    match &r.filters[2] {
        AccountFilter::Bytes { offset, bytes } => {
            assert_eq!(*offset, 8);
            assert_eq!(bytes, &vec![1u8]);
        },
        other => panic!("{:?}", other),
    }
    let alone = p.accounts_request(&TAG, vec![]);
    assert_eq!(alone.filters.len(), 1);
}

#[test]
fn accounts_equals_the_drained_lazy_sequence() {
    let p = program(None);
    let scan = vec![raw(5, tagged(&[1, 0])), raw(6, tagged(&[2, 0])), raw(7, tagged(&[0, 1]))];
    let eager = p.accounts(Ok(scan.clone()), decode_counter).unwrap();
    let mut it = p.accounts_lazy(Ok(scan), decode_counter).unwrap();
    assert_eq!(it.remaining(), 3);
    let mut drained = Vec::new();
    while let Some(item) = it.next() {
        drained.push(item.unwrap());
    }
    assert_eq!(it.remaining(), 0);
    assert_eq!(eager.len(), 3);
    assert_eq!(drained.len(), 3);
    for i in 0..3 {
        assert_eq!(eager[i].0.bytes, drained[i].0.bytes);
        assert_eq!(eager[i].1, drained[i].1);
    }
    let values: Vec<(u8, u16)> = eager.iter().map(|(a, c)| (a.bytes[0], c.value)).collect();
    assert_eq!(values, vec![(5, 1), (6, 2), (7, 256)]);
}

#[test]
fn an_empty_scan_ends_at_once() {
    let p = program(None);
    let mut it = p.accounts_lazy(Ok(vec![]), decode_counter).unwrap();
    assert_eq!(it.remaining(), 0);
    assert!(it.next::<Counter>().is_none());
    assert!(it.next::<Counter>().is_none());
    assert!(p.accounts(Ok(vec![]), decode_counter).unwrap().is_empty());
}

#[test]
fn a_bad_entry_fails_alone_in_the_lazy_sequence() {
    let p = program(None);
    let scan = vec![raw(5, tagged(&[1, 0])), raw(6, vec![0xFF, 0xFF]), raw(7, tagged(&[3, 0]))];
    let mut it = p.accounts_lazy(Ok(scan.clone()), decode_counter).unwrap();
    assert_eq!(it.next().unwrap().unwrap().1, Counter { value: 1 });
    assert!(matches!(it.next(), Some(Err(ClientError::Decode))));
    let third = it.next().unwrap().unwrap();
    assert_eq!(third.0.bytes, [7; 32]);
    assert_eq!(third.1, Counter { value: 3 });
    assert!(it.next().is_none());
    assert!(matches!(p.accounts(Ok(scan), decode_counter), Err(ClientError::Decode)));
}

#[test]
fn a_failed_scan_is_a_transport_error() {
    let p = program(None);
    match p.accounts(Err("rate limited".to_string()), decode_counter) {
        Err(ClientError::Transport(reason)) => assert_eq!(reason, "rate limited"),
        other => panic!("{:?}", other),
    }
    assert!(matches!(
        p.accounts_lazy(Err("rate limited".to_string()), decode_counter),
        Err(ClientError::Transport(_))
    ));
}

#[test]
fn the_log_stream_is_scoped_to_the_program() {
    let cfg = Config { cluster: "c".to_string(), payer: addr(2), options: None };
    let system = Program::new(Address::new([0; 32]), cfg, None).unwrap();
    let r = system.logs_request();
    assert_eq!(r.mentions, b"11111111111111111111111111111111".to_vec());
    assert_eq!(r.commitment, Commitment::Finalized);
    let mut one = [0u8; 32];
    one[31] = 1;
    assert_eq!(Address::new(one).to_text(), b"11111111111111111111111111111112".to_vec());
    let key: solana_sdk::pubkey::Pubkey = "11111111111111111111111111111112".parse().unwrap();
    assert_eq!(key.to_bytes(), one);
    let text = String::from_utf8(addr(7).to_text()).unwrap();
    let back: solana_sdk::pubkey::Pubkey = text.parse().unwrap();
    assert_eq!(back.to_bytes(), [7; 32]);
}

#[test]
fn the_subscription_client_is_established_once() {
    let mut p = program(None);
    assert!(p.needs_subscription_client());
    let failed = p.on(TAG, Err("no route".to_string()), Ok(()));
    match failed {
        Err(ClientError::Transport(reason)) => assert_eq!(reason, "no route"),
        other => panic!("{:?}", other),
    }
    assert!(p.needs_subscription_client());
    let first = p.on(TAG, Ok(()), Ok(())).unwrap();
    assert_eq!(first.subscription.state, SubscriptionState::Subscribed);
    assert_eq!(first.subscription.tag, TAG);
    assert_eq!(first.subscription.program.bytes, [1; 32]);
    assert!(!p.needs_subscription_client());
    let second = p.on([9; 8], Err("not consulted".to_string()), Ok(())).unwrap();
    assert_eq!(second.subscription.tag, [9; 8]);
    assert_eq!(second.subscription.delivered, 0);
    assert!(!p.needs_subscription_client());
}

#[test]
fn a_refused_stream_is_a_transport_error() {
    let mut p = program(None);
    match p.on(TAG, Ok(()), Err("too many streams".to_string())) {
        Err(ClientError::Transport(reason)) => assert_eq!(reason, "too many streams"),
        other => panic!("{:?}", other),
    }
    assert!(!p.needs_subscription_client());
    match p.on(TAG, Err("not consulted".to_string()), Err("again".to_string())) {
        Err(ClientError::Transport(reason)) => assert_eq!(reason, "again"),
        other => panic!("{:?}", other),
    }
    match p.on(TAG, Err("no route".to_string()), Err("not asked".to_string())) {
        Ok(_) => panic!("a stream without a request"),
        Err(e) => assert!(e.is_transport()),
    }
}

#[test]
fn addresses_compare_by_their_bytes() {
    assert!(addr(1).same(&addr(1)));
    assert!(!addr(1).same(&addr(2)));
    let mut b = [1u8; 32];
    b[31] = 0;
    assert!(!addr(1).same(&Address::new(b)));
}
