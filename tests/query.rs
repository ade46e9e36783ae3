use cosmos_gravity::address::{normalize_cosmos_address, parse_eth_address, parse_eth_signature, is_uint256, EthAddress};
use cosmos_gravity::query::{
    batch_signatures_request, current_valset_request, get_all_valset_confirms, get_current_valset,
    get_last_event_nonce, get_latest_logic_calls, get_latest_transaction_batches, get_latest_valsets,
    get_logic_call_signatures, get_oldest_unsigned_logic_call, get_oldest_unsigned_transaction_batch,
    get_oldest_unsigned_valsets, get_transaction_batch_signatures, get_valset, latest_valsets_request,
    logic_call_signatures_request, signer_request, valset_confirms_request, valset_request,
};
use cosmos_gravity::types::GravityError;
use cosmos_gravity::wire::{
    BatchTx, BatchTxConfirmation, ContractCallTx, ContractCallTxConfirmation, Erc20Token,
    EthereumSigner, RpcStatus, SendToEthereum, SignerSetTx, SignerSetTxConfirmation,
};

const ADDR_A: &str = "0x0102030405060708090a0b0c0d0e0f1011121314";
const ADDR_B: &str = "0xAbCdEf0102030405060708090a0b0c0d0e0f1011";
const COSMOS_HEX: &str = "0102030405060708090a0b0c0d0e0f1011121314";

fn bytes_a() -> Vec<u8> {
    (1u8..=20).collect()
}

fn status() -> RpcStatus {
    RpcStatus { code: 14, message: "unavailable".to_string() }
}

fn signer_set(nonce: u64) -> SignerSetTx {
    SignerSetTx {
        nonce,
        height: 100,
        signers: vec![
            EthereumSigner { power: 7, ethereum_address: ADDR_A.to_string() },
            EthereumSigner { power: 3, ethereum_address: "nonsense".to_string() },
        ],
    }
}

fn valset_confirm(signer: &str, sig_len: usize) -> SignerSetTxConfirmation {
    SignerSetTxConfirmation { signer_set_nonce: 4, ethereum_signer: signer.to_string(), signature: vec![27u8; sig_len] }
}

fn token(contract: &str, amount: &str) -> Erc20Token {
    Erc20Token { contract: contract.to_string(), amount: amount.to_string() }
}

fn cosmos_text() -> String {
    normalize_cosmos_address(COSMOS_HEX).unwrap()
}

fn batch(nonce: u64, contract: &str) -> BatchTx {
    BatchTx {
        batch_nonce: nonce,
        timeout: 500,
        transactions: vec![SendToEthereum {
            id: 9,
            sender: cosmos_text(),
            ethereum_recipient: ADDR_B.to_string(),
            erc20_token: token(ADDR_A, "1000"),
            erc20_fee: token(ADDR_A, "3"),
        }],
        token_contract: contract.to_string(),
        height: 77,
    }
}

fn logic_call(nonce: u64, address: &str) -> ContractCallTx {
    ContractCallTx {
        invalidation_nonce: nonce,
        invalidation_scope: vec![1, 2],
        address: address.to_string(),
        payload: vec![0xde, 0xad],
        timeout: 60,
        tokens: vec![token(ADDR_A, "12")],
        fees: vec![token(ADDR_B, "1")],
        height: 10,
    }
}

fn call_confirm(signer: &str) -> ContractCallTxConfirmation {
    ContractCallTxConfirmation {
        invalidation_scope: vec![1, 2],
        invalidation_nonce: 3,
        ethereum_signer: signer.to_string(),
        signature: vec![28u8; 65],
    }
}

#[test]
fn valset_absent_is_none() {
    let r = get_valset(5, Ok(None));
    assert!(matches!(r, Ok(None)));
}

#[test]
fn valset_present_carries_nonce() {
    let v = get_valset(5, Ok(Some(signer_set(5)))).unwrap().unwrap();
    assert_eq!(v.nonce, 5);
    assert_eq!(v.members.len(), 2);
    assert_eq!(v.members[0].power, 7);
    assert_eq!(v.members[0].eth_address.as_ref().unwrap().bytes, bytes_a());
    assert_eq!(v.members[1].power, 3);
    assert!(v.members[1].eth_address.is_none());
}

#[test]
fn valset_with_other_nonce_is_refused() {
    let r = get_valset(5, Ok(Some(signer_set(6))));
    assert!(matches!(r, Err(GravityError::InvalidBridgeStateError(_))));
    let r = get_valset(0, Ok(Some(signer_set(0))));
    assert!(matches!(r, Err(GravityError::InvalidBridgeStateError(_))));
}

#[test]
fn valset_transport_failure_is_handed_on() {
    match get_valset(5, Err(status())) {
        Err(GravityError::RpcError(s)) => {
            assert_eq!(s.code, 14);
            assert_eq!(s.message, "unavailable");
        },
        _ => panic!("expected the transport's status"),
    }
}

#[test]
fn current_valset_present_and_absent() {
    let v = get_current_valset(Ok(Some(signer_set(0)))).unwrap();
    assert_eq!(v.nonce, 0);
    assert_eq!(v.members.len(), 2);
    let r = get_current_valset(Ok(None));
    assert!(matches!(r, Err(GravityError::InvalidBridgeStateError(_))));
    assert!(matches!(get_current_valset(Err(status())), Err(GravityError::RpcError(_))));
}

#[test]
fn valset_lists_keep_node_order() {
    let vs = get_oldest_unsigned_valsets(Ok(vec![signer_set(3), signer_set(8)])).unwrap();
    assert_eq!(vs.iter().map(|v| v.nonce).collect::<Vec<_>>(), vec![3, 8]);
    let vs = get_latest_valsets(Ok(vec![signer_set(9), signer_set(2), signer_set(1)])).unwrap();
    assert_eq!(vs.iter().map(|v| v.nonce).collect::<Vec<_>>(), vec![9, 2, 1]);
    assert!(get_oldest_unsigned_valsets(Ok(vec![])).unwrap().is_empty());
}

#[test]
fn valset_confirms_parse() {
    let cs = get_all_valset_confirms(Ok(vec![valset_confirm(ADDR_A, 65), valset_confirm(ADDR_B, 65)])).unwrap();
    assert_eq!(cs.len(), 2);
    assert_eq!(cs[0].nonce, 4);
    assert_eq!(cs[0].eth_signer.bytes, bytes_a());
    assert_eq!(cs[1].eth_signer.bytes[0], 0xab);
    assert_eq!(cs[1].eth_signature.bytes, vec![27u8; 65]);
}

#[test]
fn valset_confirms_one_malformed_fails_all() {
    let r = get_all_valset_confirms(Ok(vec![valset_confirm(ADDR_A, 65), valset_confirm("0x12", 65)]));
    assert!(matches!(r, Err(GravityError::ParseError)));
    let r = get_all_valset_confirms(Ok(vec![valset_confirm(ADDR_A, 64), valset_confirm(ADDR_A, 65)]));
    assert!(matches!(r, Err(GravityError::ParseError)));
}

#[test]
fn empty_answers_give_empty_lists() {
    assert!(get_all_valset_confirms(Ok(vec![])).unwrap().is_empty());
    assert!(get_latest_transaction_batches(Ok(vec![])).unwrap().is_empty());
    assert!(get_transaction_batch_signatures(Ok(vec![])).unwrap().is_empty());
    assert!(get_latest_logic_calls(Ok(vec![])).unwrap().is_empty());
    assert!(get_logic_call_signatures(Ok(vec![])).unwrap().is_empty());
}

#[test]
fn oldest_unsigned_batch_takes_first() {
    assert!(matches!(get_oldest_unsigned_transaction_batch(Ok(vec![])), Ok(None)));
    let b = get_oldest_unsigned_transaction_batch(Ok(vec![batch(11, ADDR_A), batch(12, ADDR_B)])).unwrap().unwrap();
    assert_eq!(b.nonce, 11);
    assert_eq!(b.batch_timeout, 500);
    assert_eq!(b.token_contract.bytes, bytes_a());
    assert_eq!(b.transactions.len(), 1);
    assert_eq!(b.transactions[0].id, 9);
    assert_eq!(b.transactions[0].sender, cosmos_text());
    assert_eq!(b.transactions[0].erc20_token.amount, "1000");
    assert_eq!(b.transactions[0].erc20_fee.amount, "3");
    // only the first item is read: a malformed second one does not matter
    let b = get_oldest_unsigned_transaction_batch(Ok(vec![batch(11, ADDR_A), batch(12, "bad")])).unwrap().unwrap();
    assert_eq!(b.nonce, 11);
    let r = get_oldest_unsigned_transaction_batch(Ok(vec![batch(12, "bad"), batch(11, ADDR_A)]));
    assert!(matches!(r, Err(GravityError::ParseError)));
}

#[test]
fn latest_batches_parse_or_fail() {
    let bs = get_latest_transaction_batches(Ok(vec![batch(1, ADDR_A), batch(2, ADDR_B)])).unwrap();
    assert_eq!(bs.iter().map(|b| b.nonce).collect::<Vec<_>>(), vec![1, 2]);
    let mut bad = batch(3, ADDR_A);
    bad.transactions[0].sender = "not an address".to_string();
    assert!(matches!(get_latest_transaction_batches(Ok(vec![batch(1, ADDR_A), bad])), Err(GravityError::ParseError)));
    let mut bad = batch(3, ADDR_A);
    bad.transactions[0].erc20_fee.amount = "twelve".to_string();
    assert!(matches!(get_latest_transaction_batches(Ok(vec![bad])), Err(GravityError::ParseError)));
}

#[test]
fn batch_signatures_parse_or_fail() {
    let c = BatchTxConfirmation {
        token_contract: ADDR_A.to_string(),
        batch_nonce: 6,
        ethereum_signer: ADDR_B.to_string(),
        signature: vec![1u8; 65],
    };
    let cs = get_transaction_batch_signatures(Ok(vec![c.clone()])).unwrap();
    assert_eq!(cs[0].nonce, 6);
    assert_eq!(cs[0].token_contract.bytes, bytes_a());
    let mut bad = c.clone();
    bad.signature = vec![1u8; 10];
    assert!(matches!(get_transaction_batch_signatures(Ok(vec![c, bad])), Err(GravityError::ParseError)));
}

#[test]
fn last_event_nonce_passes_through() {
    assert!(matches!(get_last_event_nonce(Ok(42)), Ok(42)));
    assert!(matches!(get_last_event_nonce(Ok(0)), Ok(0)));
    assert!(matches!(get_last_event_nonce(Err(status())), Err(GravityError::RpcError(_))));
}

#[test]
fn logic_calls_parse_or_fail() {
    let cs = get_latest_logic_calls(Ok(vec![logic_call(3, ADDR_A), logic_call(4, ADDR_B)])).unwrap();
    assert_eq!(cs.len(), 2);
    assert_eq!(cs[0].invalidation_nonce, 3);
    assert_eq!(cs[0].invalidation_id, vec![1, 2]);
    assert_eq!(cs[0].payload, vec![0xde, 0xad]);
    assert_eq!(cs[0].timeout, 60);
    assert_eq!(cs[0].transfers[0].amount, "12");
    assert_eq!(cs[0].fees[0].token_contract_address.bytes[0], 0xab);
    let r = get_latest_logic_calls(Ok(vec![logic_call(3, ADDR_A), logic_call(4, "0xzz")]));
    assert!(matches!(r, Err(GravityError::ParseError)));
}

#[test]
fn oldest_unsigned_logic_call_takes_first() {
    assert!(matches!(get_oldest_unsigned_logic_call(Ok(vec![])), Ok(None)));
    let c = get_oldest_unsigned_logic_call(Ok(vec![logic_call(8, ADDR_A), logic_call(2, ADDR_A)])).unwrap().unwrap();
    assert_eq!(c.invalidation_nonce, 8);
}

#[test]
fn logic_call_signatures_one_bad_address_fails() {
    let q = logic_call_signatures_request(vec![0x01, 0x02], 3);
    assert_eq!(q.invalidation_scope, vec![0x01, 0x02]);
    assert_eq!(q.invalidation_nonce, 3);
    assert_eq!(q.address, "");
    let r = get_logic_call_signatures(Ok(vec![call_confirm(ADDR_A), call_confirm("0xnot-an-address")]));
    assert!(matches!(r, Err(GravityError::ParseError)));
    let cs = get_logic_call_signatures(Ok(vec![call_confirm(ADDR_A), call_confirm(ADDR_B)])).unwrap();
    assert_eq!(cs.len(), 2);
    assert_eq!(cs[1].invalidation_id, vec![1, 2]);
    assert_eq!(cs[1].invalidation_nonce, 3);
}

#[test]
fn requests_carry_their_parameters() {
    assert_eq!(valset_request(9).nonce, 9);
    assert_eq!(current_valset_request().nonce, 0);
    assert_eq!(latest_valsets_request().count, 5);
    assert_eq!(valset_confirms_request(4).nonce, 4);
    let q = signer_request(COSMOS_HEX).unwrap();
    assert!(q.address.starts_with("cosmos1"));
    assert_eq!(signer_request(&q.address).unwrap().address, q.address);
    assert!(matches!(signer_request("cosmos1nonsense"), Err(GravityError::ParseError)));
    let contract = EthAddress { bytes: bytes_a() };
    let q = batch_signatures_request(2, &contract);
    assert_eq!(q.nonce, 2);
    assert_eq!(q.contract_address.to_lowercase(), ADDR_A);
}

#[test]
fn eth_address_texts() {
    assert_eq!(parse_eth_address("").unwrap().bytes, vec![0u8; 20]);
    assert!(parse_eth_address("0x").is_none());
    assert_eq!(parse_eth_address(&ADDR_A[2..]).unwrap().bytes, bytes_a());
    assert_eq!(parse_eth_address(&ADDR_A.to_uppercase().replace("0X", "0x")).unwrap().bytes, bytes_a());
    assert!(parse_eth_address("0x0102").is_none());
    let eip55 = "0x5aAeb6053F3E94C9b9A09f33669435E7Ef1BeAed";
    let a = parse_eth_address(eip55).unwrap();
    assert_eq!(a.bytes[0], 0x5a);
    assert_eq!(a.to_text(), eip55);
}

#[test]
fn eth_address_round_trips_through_text() {
    let a = EthAddress { bytes: bytes_a() };
    let text: String = format!("0x{}", a.bytes.iter().map(|b| format!("{:02x}", b)).collect::<String>());
    assert_eq!(text, ADDR_A);
    assert_eq!(parse_eth_address(&text).unwrap().bytes, a.bytes);
    assert_eq!(parse_eth_address(&a.to_text()).unwrap().bytes, a.bytes);
}

#[test]
fn signatures_and_amounts() {
    assert_eq!(parse_eth_signature(vec![5u8; 65]).unwrap().bytes, vec![5u8; 65]);
    assert!(parse_eth_signature(vec![5u8; 64]).is_none());
    assert!(parse_eth_signature(vec![]).is_none());
    assert!(is_uint256("1000"));
    assert!(!is_uint256("ten"));
}

fn hex_text(bytes: &[u8]) -> String {
    format!("0x{}", bytes.iter().map(|b| format!("{:02x}", b)).collect::<String>())
}

#[test]
fn domain_values_round_trip_through_wire() {
    let members: Vec<(u64, Option<Vec<u8>>)> = vec![(10, Some(bytes_a())), (4, None), (1, Some(vec![0xff; 20]))];
    let wire = SignerSetTx {
        nonce: 12,
        height: 3,
        signers: members
            .iter()
            .map(|(p, a)| EthereumSigner {
                power: *p,
                ethereum_address: a.as_ref().map(|b| hex_text(b)).unwrap_or_else(|| "none".to_string()),
            })
            .collect(),
    };
    let v = get_valset(12, Ok(Some(wire))).unwrap().unwrap();
    assert_eq!(v.nonce, 12);
    let back: Vec<(u64, Option<Vec<u8>>)> =
        v.members.iter().map(|m| (m.power, m.eth_address.as_ref().map(|a| a.bytes.clone()))).collect();
    assert_eq!(back, members);

    let signer = vec![0x42u8; 20];
    let sig: Vec<u8> = (0u8..65).collect();
    let c = get_all_valset_confirms(Ok(vec![SignerSetTxConfirmation {
        signer_set_nonce: 31,
        ethereum_signer: hex_text(&signer),
        signature: sig.clone(),
    }]))
    .unwrap();
    assert_eq!(c[0].nonce, 31);
    assert_eq!(c[0].eth_signer.bytes, signer);
    assert_eq!(c[0].eth_signature.bytes, sig);
}
