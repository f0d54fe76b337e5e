use zcash_numi_sdk::compliance::{export_transactions_csv, redact_middle, ExportedViewingKeys};
use zcash_numi_sdk::types::{Transaction, TransactionStatus};

#[test]
fn test_redact_middle() {
    let s = "zs1abcdefghijklmnopqrstuvwx1234567890";
    let r = redact_middle(s, 6, 6);
    assert!(r.starts_with("zs1abc"));
    assert!(r.ends_with("67890"));
    assert!(r.contains('…'));
}

#[test]
fn redaction_keeps_both_ends_exactly() {
    assert_eq!(redact_middle("zs1abcdefghijklmnopqrstuvwx1234567890", 6, 6), "zs1abc…567890");
    assert_eq!(redact_middle("abcdefgh", 0, 0), "…");
    assert_eq!(redact_middle("abcdefgh", 3, 0), "abc…");
    assert_eq!(redact_middle("abcdefgh", 0, 3), "…fgh");
}

#[test]
fn short_texts_are_shown_whole() {
    assert_eq!(redact_middle("abcdefg", 3, 3), "abcdefg");
    assert_eq!(redact_middle("abc", 3, 3), "abc");
    assert_eq!(redact_middle("", 0, 0), "");
    assert_eq!(redact_middle("a", 0, 0), "a");
    assert_eq!(redact_middle("abcdefgh", 3, 3), "abc…fgh");
}

#[test]
fn redaction_counts_bytes() {
    // Each of these characters takes two bytes.
    assert_eq!(redact_middle("ééééé", 2, 2), "é…é");
}

#[test]
fn csv_export_of_nothing_is_the_header() {
    assert_eq!(export_transactions_csv(&[]), "txid,status,height,amount_zec,fee_zec,memo\n");
}

#[test]
fn csv_export_writes_one_line_per_transaction() {
    let transactions = vec![
        Transaction {
            txid: "aa".to_string(),
            status: TransactionStatus::Confirmed { height: 1234 },
            amount: 150_000_000,
            fee: 10_000,
            memo: Some("rent, march".to_string()),
            timestamp: Some(1),
        },
        Transaction {
            txid: "bb".to_string(),
            status: TransactionStatus::Pending,
            amount: -1,
            fee: 0,
            memo: None,
            timestamp: None,
        },
        Transaction {
            txid: "cc".to_string(),
            status: TransactionStatus::Rejected,
            amount: -2_100_000_000_000_000,
            fee: 123_456_789,
            memo: Some(",,".to_string()),
            timestamp: None,
        },
    ];
    let expected = "txid,status,height,amount_zec,fee_zec,memo\n\
                    aa,confirmed,1234,1.50000000,0.00010000,rent; march\n\
                    bb,pending,,-0.00000001,0.00000000,\n\
                    cc,rejected,,-21000000.00000000,1.23456789,;;\n";
    assert_eq!(export_transactions_csv(&transactions), expected);
}

#[test]
fn csv_export_handles_the_extreme_amounts() {
    let transactions = vec![Transaction {
        txid: "dd".to_string(),
        status: TransactionStatus::Confirmed { height: 0 },
        amount: i64::MIN,
        fee: u64::MAX,
        memo: None,
        timestamp: None,
    }];
    assert_eq!(
        export_transactions_csv(&transactions),
        "txid,status,height,amount_zec,fee_zec,memo\ndd,confirmed,0,-92233720368.54775808,184467440737.09551615,\n"
    );
}

#[test]
fn exported_keys_hold_their_parts() {
    let keys = ExportedViewingKeys { ufvk: "uview1".to_string(), sapling_fvk: None, transparent_ivk: None };
    assert_eq!(keys.ufvk, "uview1");
    assert_eq!(keys.sapling_fvk, None);
    assert_eq!(keys.transparent_ivk, None);
}
