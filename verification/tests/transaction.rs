use zcash_numi_sdk::client::RpcClient;
use zcash_numi_sdk::error::{Error, ValidationError};
use zcash_numi_sdk::rpc::{Payment, RpcCall, RpcParam};
use zcash_numi_sdk::transaction::poller::{OperationStatus, Poll};
use zcash_numi_sdk::transaction::requests::{convert_payment_request, PaymentRequest};
use zcash_numi_sdk::transaction::{
    collect_violations, validate_payment, validate_payments, SendManyRequest, TransactionBuilder,
    MAX_AMOUNT_ZATOSHIS, MAX_MEMO_SIZE,
};
use zcash_numi_sdk::types::Network;

const SHIELDED: &str = "zs1qqqqqqqqqqqqqqqqqqqqqqqqqqqqqqqqqqqqqqqqqqqqqqqqqqqqqqqqqqqqqqqqqqqqqpq6d8g";
const TRANSPARENT: &str = "t1Hsc1LR8yKnbbe3twRp88p6vFfC5t7DLbs";
const SOURCE: &str = "t1VmmGiyjVNeCjxDZzg7vZmd99WyzVby9yC";
const TESTNET_SHIELDED: &str =
    "ztestsapling1qqqqqqqqqqqqqqqqqqqqqqqqqqqqqqqqqqqqqqqqqqqqqqqqqqqqqqqqqqqqqqqqqqqqqfhgwqu";
const TESTNET_TRANSPARENT: &str = "tm9iMLAuYMzJ6jtFLcA7rzUmfreGuKvr7Ma";

fn pay(address: &str, amount: i64, memo: Option<&str>) -> Payment {
    Payment { address: address.to_string(), amount, memo: memo.map(|m| m.as_bytes().to_vec()) }
}

fn builder() -> TransactionBuilder {
    TransactionBuilder::with_rpc_client(Network::Mainnet, RpcClient::new("http://localhost:8232".to_string()))
}

#[test]
fn limits_have_their_protocol_values() {
    assert_eq!(MAX_MEMO_SIZE, 512);
    assert_eq!(MAX_AMOUNT_ZATOSHIS, 21_000_000 * 100_000_000);
}

#[test]
fn amounts_outside_the_supply_are_invalid() {
    for amount in [0, -1, i64::MIN, MAX_AMOUNT_ZATOSHIS + 1, i64::MAX] {
        assert_eq!(
            validate_payment(&pay(SHIELDED, amount, None), 3, Network::Mainnet),
            Err(ValidationError::InvalidAmount { index: 3 })
        );
    }
}

#[test]
fn amounts_inside_the_supply_pass() {
    for amount in [1, 100_000_000, MAX_AMOUNT_ZATOSHIS] {
        assert_eq!(validate_payment(&pay(SHIELDED, amount, None), 0, Network::Mainnet), Ok(()));
        assert_eq!(validate_payment(&pay(TRANSPARENT, amount, None), 0, Network::Mainnet), Ok(()));
    }
}

#[test]
fn invalid_amount_wins_over_every_other_rule() {
    let memo = "m".repeat(600);
    assert_eq!(
        validate_payment(&pay("garbage", 0, Some(&memo)), 1, Network::Mainnet),
        Err(ValidationError::InvalidAmount { index: 1 })
    );
}

#[test]
fn oversized_memo_is_refused_regardless_of_the_address() {
    let memo = "m".repeat(513);
    for address in [SHIELDED, TRANSPARENT, "garbage"] {
        assert_eq!(
            validate_payment(&pay(address, 5, Some(&memo)), 2, Network::Mainnet),
            Err(ValidationError::MemoTooLarge { index: 2, length: 513 })
        );
    }
}

#[test]
fn memo_size_is_counted_in_bytes() {
    // 171 characters of three bytes each: 513 bytes.
    let memo = "€".repeat(171);
    assert_eq!(
        validate_payment(&pay(SHIELDED, 5, Some(&memo)), 0, Network::Mainnet),
        Err(ValidationError::MemoTooLarge { index: 0, length: 513 })
    );
    let fits = "m".repeat(512);
    assert_eq!(validate_payment(&pay(SHIELDED, 5, Some(&fits)), 0, Network::Mainnet), Ok(()));
}

#[test]
fn memo_to_a_transparent_address_is_refused() {
    assert_eq!(
        validate_payment(&pay(TRANSPARENT, 5, Some("thanks")), 7, Network::Mainnet),
        Err(ValidationError::MemoOnTransparentAddress { index: 7 })
    );
    assert_eq!(
        validate_payment(&pay(TRANSPARENT, 5, Some("")), 7, Network::Mainnet),
        Err(ValidationError::MemoOnTransparentAddress { index: 7 })
    );
    assert_eq!(validate_payment(&pay(SHIELDED, 5, Some("thanks")), 7, Network::Mainnet), Ok(()));
}

#[test]
fn unparseable_recipient_is_refused() {
    assert_eq!(
        validate_payment(&pay("garbage", 5, None), 4, Network::Mainnet),
        Err(ValidationError::InvalidAddress { index: 4 })
    );
    assert_eq!(
        validate_payment(&pay("garbage", 5, Some("memo")), 4, Network::Mainnet),
        Err(ValidationError::InvalidAddress { index: 4 })
    );
}

#[test]
fn batch_reports_the_first_violation() {
    let payments = vec![
        pay(SHIELDED, 5, Some("ok")),
        pay(TRANSPARENT, 5, Some("memo")),
        pay(SHIELDED, 0, None),
    ];
    let first = validate_payments(&payments, Network::Mainnet).unwrap_err();
    assert_eq!(first, ValidationError::MemoOnTransparentAddress { index: 1 });
    assert_eq!(first.index(), 1);
    assert_eq!(
        collect_violations(&payments, Network::Mainnet),
        vec![ValidationError::MemoOnTransparentAddress { index: 1 }, ValidationError::InvalidAmount { index: 2 }]
    );
    assert_eq!(validate_payments(&[], Network::Mainnet), Ok(()));
    assert!(collect_violations(&[], Network::Mainnet).is_empty());
}

#[test]
fn send_many_needs_an_rpc_client() {
    let builder = TransactionBuilder::new(Network::Mainnet);
    assert_eq!(
        builder.send_many(SOURCE, vec![pay(SHIELDED, 5, None)], None, None),
        Err(Error::Transaction("RPC client not configured".to_string()))
    );
}

#[test]
fn send_many_checks_the_source_address_first() {
    match builder().send_many("garbage", vec![pay(SHIELDED, 0, None)], None, None) {
        Err(Error::Address(message)) => assert!(message.starts_with("Failed to parse address: ")),
        other => panic!("unexpected result {:?}", other),
    }
}

#[test]
fn send_many_is_all_or_nothing() {
    let payments = vec![pay(SHIELDED, 5, None), pay(TRANSPARENT, -5, None)];
    assert_eq!(
        builder().send_many(SOURCE, payments, Some(1), None),
        Err(Error::Validation(ValidationError::InvalidAmount { index: 1 }))
    );
}

#[test]
fn send_many_forwards_a_valid_batch_unchanged() {
    let payments = vec![pay(SHIELDED, 150_000_000, Some("for lunch")), pay(TRANSPARENT, 1, None)];
    let request = builder().send_many(SOURCE, payments.clone(), Some(3), Some(10_000)).unwrap();
    assert_eq!(
        request,
        SendManyRequest { from_address: SOURCE.to_string(), payments, minconf: Some(3), fee: Some(10_000) }
    );
}

#[test]
fn set_rpc_client_enables_sending() {
    let mut builder = TransactionBuilder::new(Network::Testnet);
    assert!(builder.send_many(TESTNET_TRANSPARENT, vec![], None, None).is_err());
    builder.set_rpc_client(RpcClient::new("http://localhost:18232".to_string()));
    assert_eq!(builder.network, Network::Testnet);
    assert!(builder.send_many(TESTNET_TRANSPARENT, vec![], None, None).is_ok());
    assert!(builder.send_many(SOURCE, vec![], None, None).is_err());
}

#[test]
fn send_to_address_builds_a_batch_of_one() {
    let request = builder()
        .send_to_address(SOURCE, SHIELDED, 42, Some("hi".to_string()), None, None)
        .unwrap();
    assert_eq!(request.payments, vec![pay(SHIELDED, 42, Some("hi"))]);
    assert_eq!(request.from_address, SOURCE);
    assert_eq!(request.minconf, None);
    assert_eq!(request.fee, None);
}

#[test]
fn send_to_address_applies_the_same_rules() {
    assert_eq!(
        builder().send_to_address(SOURCE, SHIELDED, 0, None, None, None),
        Err(Error::Validation(ValidationError::InvalidAmount { index: 0 }))
    );
    assert_eq!(
        builder().send_to_address(SOURCE, TRANSPARENT, 1, Some("memo".to_string()), None, None),
        Err(Error::Validation(ValidationError::MemoOnTransparentAddress { index: 0 }))
    );
    assert_eq!(
        builder().send_to_address(SOURCE, SHIELDED, 1, Some("m".repeat(513)), None, None),
        Err(Error::Validation(ValidationError::MemoTooLarge { index: 0, length: 513 }))
    );
    assert_eq!(
        builder().send_to_address(SOURCE, "garbage", 1, None, None, None),
        Err(Error::Validation(ValidationError::InvalidAddress { index: 0 }))
    );
}

#[test]
fn estimate_fee_depends_on_the_source_pool() {
    let payments = vec![pay(SHIELDED, 1, None), pay(TRANSPARENT, 1, None), pay(SHIELDED, 1, None)];
    assert_eq!(builder().estimate_fee(&payments, SHIELDED), Ok(25000));
    assert_eq!(builder().estimate_fee(&payments, SOURCE), Ok(20000));
    assert_eq!(builder().estimate_fee(&[], SOURCE), Ok(10000));
    assert!(builder().estimate_fee(&payments, "garbage").is_err());
}

#[test]
fn payment_request_converts_to_a_payment() {
    let request = PaymentRequest { address: SHIELDED.to_string(), amount: Some(7), memo: Some(b"hello".to_vec()) };
    assert_eq!(convert_payment_request(&request, Network::Mainnet, 0), Ok(pay(SHIELDED, 7, Some("hello"))));
    let plain = PaymentRequest { address: TRANSPARENT.to_string(), amount: Some(7), memo: None };
    assert_eq!(convert_payment_request(&plain, Network::Mainnet, 0), Ok(pay(TRANSPARENT, 7, None)));
}

#[test]
fn payment_request_keeps_a_memo_that_is_not_text() {
    let request = PaymentRequest { address: SHIELDED.to_string(), amount: Some(7), memo: Some(vec![0xff, 0xfe]) };
    assert_eq!(
        convert_payment_request(&request, Network::Mainnet, 0),
        Ok(Payment { address: SHIELDED.to_string(), amount: 7, memo: Some(vec![0xff, 0xfe]) })
    );
    let oversized = PaymentRequest { address: SHIELDED.to_string(), amount: Some(7), memo: Some(vec![0xff; 513]) };
    assert_eq!(
        convert_payment_request(&oversized, Network::Mainnet, 3),
        Err(ValidationError::MemoTooLarge { index: 3, length: 513 })
    );
}

#[test]
fn payment_request_to_another_network_is_refused() {
    let request = PaymentRequest { address: TESTNET_SHIELDED.to_string(), amount: Some(7), memo: None };
    assert_eq!(
        convert_payment_request(&request, Network::Mainnet, 2),
        Err(ValidationError::InvalidAddress { index: 2 })
    );
    assert_eq!(convert_payment_request(&request, Network::Testnet, 2), Ok(pay(TESTNET_SHIELDED, 7, None)));
    assert_eq!(convert_payment_request(&request, Network::Regtest, 2), Ok(pay(TESTNET_SHIELDED, 7, None)));
}

#[test]
fn payment_request_conversion_failures_carry_the_index() {
    let bad_address = PaymentRequest { address: "garbage".to_string(), amount: Some(0), memo: None };
    assert_eq!(convert_payment_request(&bad_address, Network::Mainnet, 5), Err(ValidationError::InvalidAddress { index: 5 }));
    let big_memo = PaymentRequest { address: SHIELDED.to_string(), amount: Some(0), memo: Some(vec![b'a'; 513]) };
    assert_eq!(
        convert_payment_request(&big_memo, Network::Mainnet, 6),
        Err(ValidationError::MemoTooLarge { index: 6, length: 513 })
    );
    let zero = PaymentRequest { address: SHIELDED.to_string(), amount: Some(0), memo: None };
    assert_eq!(convert_payment_request(&zero, Network::Mainnet, 7), Err(ValidationError::InvalidAmount { index: 7 }));
    let unnamed = PaymentRequest { address: SHIELDED.to_string(), amount: None, memo: None };
    assert_eq!(convert_payment_request(&unnamed, Network::Mainnet, 8), Err(ValidationError::InvalidAmount { index: 8 }));
    let excessive =
        PaymentRequest { address: SHIELDED.to_string(), amount: Some(2_100_000_000_000_001), memo: None };
    assert_eq!(convert_payment_request(&excessive, Network::Mainnet, 9), Err(ValidationError::InvalidAmount { index: 9 }));
}

#[test]
fn send_payment_requests_converts_then_validates() {
    let requests = vec![
        PaymentRequest { address: SHIELDED.to_string(), amount: Some(7), memo: Some(b"hello".to_vec()) },
        PaymentRequest { address: TRANSPARENT.to_string(), amount: Some(9), memo: None },
    ];
    let request = builder().send_payment_requests(SOURCE, &requests, None, Some(10_000)).unwrap();
    assert_eq!(request.payments, vec![pay(SHIELDED, 7, Some("hello")), pay(TRANSPARENT, 9, None)]);
    assert_eq!(request.fee, Some(10_000));

    let with_memo_on_transparent =
        vec![PaymentRequest { address: TRANSPARENT.to_string(), amount: Some(9), memo: Some(b"x".to_vec()) }];
    assert_eq!(
        builder().send_payment_requests(SOURCE, &with_memo_on_transparent, None, None),
        Err(Error::Validation(ValidationError::MemoOnTransparentAddress { index: 0 }))
    );
    // A request that does not convert is reported before the missing client is.
    let unconfigured = TransactionBuilder::new(Network::Mainnet);
    let zero = vec![PaymentRequest { address: SHIELDED.to_string(), amount: Some(0), memo: None }];
    assert_eq!(
        unconfigured.send_payment_requests(SOURCE, &zero, None, None),
        Err(Error::Validation(ValidationError::InvalidAmount { index: 0 }))
    );
}

#[test]
fn send_zip321_reads_the_payments_of_a_request() {
    let shielded: zcash_address::ZcashAddress = SHIELDED.parse().unwrap();
    let transparent: zcash_address::ZcashAddress = TRANSPARENT.parse().unwrap();
    let memo = zcash_protocol::memo::MemoBytes::from_bytes(b"hi").unwrap();
    let with_memo = zip321::Payment::new(
        shielded,
        Some(zcash_protocol::value::Zatoshis::const_from_u64(150_000_000)),
        Some(memo),
        None,
        None,
        vec![],
    )
    .unwrap();
    let without_memo =
        zip321::Payment::without_memo(transparent, zcash_protocol::value::Zatoshis::const_from_u64(25));
    let request = builder().send_zip321(SOURCE, vec![with_memo, without_memo], Some(1), None).unwrap();
    assert_eq!(request.payments.len(), 2);
    assert_eq!(request.payments[0].address, SHIELDED);
    assert_eq!(request.payments[0].amount, 150_000_000);
    let mut padded = b"hi".to_vec();
    padded.resize(512, 0);
    assert_eq!(request.payments[0].memo, Some(padded));
    assert_eq!(request.payments[1], pay(TRANSPARENT, 25, None));
    assert_eq!(request.minconf, Some(1));
}

#[test]
fn send_zip321_refuses_a_zero_amount() {
    let shielded: zcash_address::ZcashAddress = SHIELDED.parse().unwrap();
    let zero = zip321::Payment::without_memo(shielded, zcash_protocol::value::Zatoshis::ZERO);
    assert_eq!(
        builder().send_zip321(SOURCE, vec![zero], None, None),
        Err(Error::Validation(ValidationError::InvalidAmount { index: 0 }))
    );
}

#[test]
fn submission_round_trips_to_a_result_id() {
    let builder = builder();
    let payments = vec![pay(SHIELDED, 150_000_000, Some("for lunch")), pay(TRANSPARENT, 1, None)];
    let request = builder.send_many(SOURCE, payments.clone(), None, None).unwrap();
    assert_eq!(request.payments, payments);

    let client = builder.rpc_client.clone().unwrap();
    let call = client.z_sendmany(&request.from_address, request.payments, request.minconf, request.fee);
    assert_eq!(call.method, "z_sendmany");
    assert_eq!(call.params, vec![RpcParam::Text(SOURCE.to_string()), RpcParam::Payments(payments)]);

    let polls = vec![
        Poll { elapsed_seconds: 0, reply: Ok(vec![OperationStatus::Pending]) },
        Poll { elapsed_seconds: 2, reply: Ok(vec![OperationStatus::Pending]) },
        Poll { elapsed_seconds: 4, reply: Ok(vec![OperationStatus::Success { result_id: "abc".to_string() }]) },
    ];
    assert_eq!(builder.wait_for_operation("opid-1", None, &polls), Some(Ok("abc".to_string())));
}

#[test]
fn operation_queries_need_an_rpc_client() {
    let ids = vec![RpcParam::TextList(vec!["opid-1".to_string()])];
    assert_eq!(
        builder().get_operation_status("opid-1"),
        Ok(RpcCall { method: "z_getoperationstatus".to_string(), params: ids.clone() })
    );
    assert_eq!(
        builder().get_operation_result("opid-1"),
        Ok(RpcCall { method: "z_getoperationresult".to_string(), params: ids })
    );
    let unconfigured = TransactionBuilder::new(Network::Mainnet);
    assert_eq!(
        unconfigured.get_operation_status("opid-1"),
        Err(Error::Transaction("RPC client not configured".to_string()))
    );
    assert_eq!(
        unconfigured.get_operation_result("opid-1"),
        Err(Error::Transaction("RPC client not configured".to_string()))
    );
}

#[test]
fn every_violation_knows_its_index() {
    assert_eq!(ValidationError::InvalidAmount { index: 1 }.index(), 1);
    assert_eq!(ValidationError::MemoTooLarge { index: 2, length: 600 }.index(), 2);
    assert_eq!(ValidationError::MemoOnTransparentAddress { index: 3 }.index(), 3);
    assert_eq!(ValidationError::InvalidAddress { index: 4 }.index(), 4);
}

#[test]
fn recipient_of_another_network_is_refused() {
    assert_eq!(
        validate_payment(&pay(TESTNET_SHIELDED, 5, None), 1, Network::Mainnet),
        Err(ValidationError::InvalidAddress { index: 1 })
    );
    assert_eq!(
        validate_payment(&pay(TESTNET_TRANSPARENT, 5, None), 1, Network::Mainnet),
        Err(ValidationError::InvalidAddress { index: 1 })
    );
    assert_eq!(
        validate_payment(&pay(SHIELDED, 5, Some("memo")), 1, Network::Testnet),
        Err(ValidationError::InvalidAddress { index: 1 })
    );
    assert_eq!(validate_payment(&pay(TESTNET_SHIELDED, 5, Some("memo")), 1, Network::Testnet), Ok(()));
    assert_eq!(validate_payment(&pay(TESTNET_TRANSPARENT, 5, None), 1, Network::Regtest), Ok(()));
    assert_eq!(
        validate_payment(&pay(TESTNET_TRANSPARENT, 5, Some("memo")), 1, Network::Testnet),
        Err(ValidationError::MemoOnTransparentAddress { index: 1 })
    );
}

#[test]
fn source_of_another_network_is_refused() {
    let testnet =
        TransactionBuilder::with_rpc_client(Network::Testnet, RpcClient::new("http://localhost:18232".to_string()));
    match testnet.send_many(SOURCE, vec![pay(TESTNET_SHIELDED, 5, None)], None, None) {
        Err(Error::Address(message)) => assert!(message.starts_with("Failed to parse address: ")),
        other => panic!("unexpected result {:?}", other),
    }
    assert!(testnet.send_many(TESTNET_TRANSPARENT, vec![pay(TESTNET_SHIELDED, 5, None)], None, None).is_ok());
    assert_eq!(
        builder().send_many(SOURCE, vec![pay(SHIELDED, 5, None), pay(TESTNET_SHIELDED, 5, None)], None, None),
        Err(Error::Validation(ValidationError::InvalidAddress { index: 1 }))
    );
    assert!(builder().estimate_fee(&[], TESTNET_TRANSPARENT).is_err());
}

#[test]
fn memo_that_is_not_text_is_validated_by_its_bytes() {
    let payment = Payment { address: SHIELDED.to_string(), amount: 5, memo: Some(vec![0xf6; 512]) };
    assert_eq!(validate_payment(&payment, 0, Network::Mainnet), Ok(()));
    let request = builder().send_many(SOURCE, vec![payment.clone()], None, None).unwrap();
    assert_eq!(request.payments, vec![payment]);
    let oversized = Payment { address: SHIELDED.to_string(), amount: 5, memo: Some(vec![0xf6; 513]) };
    assert_eq!(
        validate_payment(&oversized, 0, Network::Mainnet),
        Err(ValidationError::MemoTooLarge { index: 0, length: 513 })
    );
}

#[test]
fn send_zip321_refuses_a_recipient_of_another_network() {
    let testnet: zcash_address::ZcashAddress = TESTNET_SHIELDED.parse().unwrap();
    let payment = zip321::Payment::without_memo(testnet, zcash_protocol::value::Zatoshis::const_from_u64(25));
    assert_eq!(
        builder().send_zip321(SOURCE, vec![payment], None, None),
        Err(Error::Validation(ValidationError::InvalidAddress { index: 0 }))
    );
}
