use xrp_rpc::balance::Balance;
use xrp_rpc::codec::{FromJson, ShapeMismatch, Step};
use xrp_rpc::json::Json;
use xrp_rpc::ledger::{LedgerInfo, PathInfo, TransactionInfo};

const LEDGER: &str = r#"{
  "ledger": {
    "accepted": true,
    "account_hash": "B258A8BB4743FB74CBBD6E9F67E4A56C4432EA09E5805E4CC2DA26F2DBE8F3D1",
    "close_flags": 0,
    "close_time": 638329271,
    "close_time_human": "2020-Mar-24 01:41:11.000000000 UTC",
    "close_time_resolution": 10,
    "closed": true,
    "hash": "3652D7FD0576BC452C0D2E9B747BDD733075971D1A9A1D98125055DEF428721A",
    "ledger_hash": "3652D7FD0576BC452C0D2E9B747BDD733075971D1A9A1D98125055DEF428721A",
    "ledger_index": "54300940",
    "parent_close_time": 638329270,
    "parent_hash": "AE996778246BC81F85D5AF051241DAA577C23BCA04C034A7074F93700194520D",
    "seqNum": "54300940",
    "totalCoins": "99991024049618156",
    "total_coins": "99991024049618156",
    "transaction_hash": "FC6FFCB71B2527DDD630EE5409D38913B4D4C026AA6C3B14A3E9D4ED45CFE30D",
    "transactions": [
      {
        "Account": "rhhh49pFH96roGyuC4E5P4CHaNjS1k8gzM",
        "Amount": "1000000000",
        "Destination": "rLNaPoKeeBjZe2qs6x52yVPZpZ8td4dc6w",
        "Fee": "12",
        "Flags": 2147483648,
        "Sequence": 56,
        "SigningPubKey": "03BC0973F997BC6384BE455B163519A3E96BC2D725C37F7172D5FED5DD38E2A357",
        "TransactionType": "Payment",
        "TxnSignature": "3045022100E1F74E892839A9818D991F1E7B3D069ED499A5D412DD6C8C2634E87D0A37D3750220141AF3DCE6DA4D134614E49C99FFB1E498C238B46FC47CF3F79A989C4A1053C5",
        "hash": "7BF105CFE4EFE78ADB63FE4E03A851440551FE189FD4B51CAAD9279C9F534F0E",
        "metaData": {
          "AffectedNodes": [
            {
              "ModifiedNode": {
                "FinalFields": {
                  "Account": "rhhh49pFH96roGyuC4E5P4CHaNjS1k8gzM",
                  "Balance": "20968679496",
                  "Flags": 0,
                  "OwnerCount": 0,
                  "Sequence": 57
                },
                "LedgerEntryType": "AccountRoot",
                "LedgerIndex": "31794F29ED8A7CBF1D5F5E6E1E8D1D9E0C1E6A8B7C0E8E4A8C8B5C2A8C8B5C2A",
                "PreviousFields": {
                  "Balance": "21968679508",
                  "Sequence": 56
                },
                "PreviousTxnID": "E5D3E1B0E6B3E5A8C8B5C2A8C8B5C2A31794F29ED8A7CBF1D5F5E6E1E8D1D9E0",
                "PreviousTxnLgrSeq": 54300015
              }
            },
            {
              "CreatedNode": {
                "LedgerEntryType": "AccountRoot",
                "LedgerIndex": "4C8B5C2A8C8B5C2A31794F29ED8A7CBF1D5F5E6E1E8D1D9E0C1E6A8B7C0E8E4A",
                "NewFields": {
                  "Account": "rLNaPoKeeBjZe2qs6x52yVPZpZ8td4dc6w",
                  "Balance": "1000000000",
                  "Sequence": 1
                }
              }
            }
          ],
          "TransactionIndex": 0,
          "TransactionResult": "tesSUCCESS"
        }
      },
      {
        "Account": "rLNaPoKeeBjZe2qs6x52yVPZpZ8td4dc6w",
        "Amount": {
          "currency": "USD",
          "issuer": "rvYAfWj5gh67oV6fW32ZzP3Aw4Eubs59B",
          "value": "0.30"
        },
        "Destination": "rhhh49pFH96roGyuC4E5P4CHaNjS1k8gzM",
        "Fee": "10",
        "Flags": 0,
        "Paths": [
          [
            {
              "currency": "USD",
              "issuer": "rvYAfWj5gh67oV6fW32ZzP3Aw4Eubs59B",
              "type": 48,
              "type_hex": "0000000000000030"
            },
            {
              "currency": "XRP",
              "type": 16,
              "type_hex": "0000000000000010"
            }
          ]
        ],
        "SendMax": "311",
        "Sequence": 2,
        "SigningPubKey": "02A61C710649C858A03DF50C8D24563613FC4D905B141EEBE019364675929AB804",
        "TransactionType": "Payment",
        "TxnSignature": "30440220366E1E62F1C8E5E5A8C8B5C2A31794F29ED8A7CBF1D5F5E6E1E8D1D9E0C1E6A8",
        "hash": "0CD7F1F8E4D3E1B0E6B3E5A8C8B5C2A8C8B5C2A31794F29ED8A7CBF1D5F5E6E1",
        "LedgerIndex": "54300940",
        "validated": true,
        "metaData": {
          "AffectedNodes": [
            {
              "ModifiedNode": {
                "FinalFields": {
                  "Balance": {
                    "currency": "USD",
                    "issuer": "rrrrrrrrrrrrrrrrrrrrBZbvji",
                    "value": "-1.2"
                  },
                  "Flags": 131072
                },
                "LedgerEntryType": "RippleState",
                "LedgerIndex": "9E0C1E6A8B7C0E8E4A8C8B5C2A8C8B5C2A31794F29ED8A7CBF1D5F5E6E1E8D1D"
              }
            }
          ],
          "TransactionIndex": 1,
          "TransactionResult": "tesSUCCESS"
        }
      }
    ]
  },
  "ledger_hash": "3652D7FD0576BC452C0D2E9B747BDD733075971D1A9A1D98125055DEF428721A",
  "ledger_index": 54300940,
  "status": "success",
  "validated": true
}"#;

fn fixture() -> Json {
    Json::parse(LEDGER).unwrap()
}

fn field(key: &str) -> Step {
    Step::Field(key.to_string())
}

/// The fixture with one piece of its text replaced by another.
fn changed(from: &str, to: &str) -> Json {
    assert!(LEDGER.contains(from));
    Json::parse(&LEDGER.replacen(from, to, 1)).unwrap()
}

#[test]
fn json_test() {
    let _: LedgerInfo = LedgerInfo::from_json(&fixture()).unwrap();
}

#[test]
fn every_member_of_the_result_is_read() {
    let info = LedgerInfo::from_json(&fixture()).unwrap();
    assert_eq!(info.ledger_hash, "3652D7FD0576BC452C0D2E9B747BDD733075971D1A9A1D98125055DEF428721A");
    assert_eq!(info.ledger_index.as_str(), "54300940");
    assert_eq!(info.ledger_index.unscaled(), "54300940");
    assert_eq!(info.status, "success");
    assert!(info.validated);
    assert!(info.transactions.is_none());
}

#[test]
fn every_member_of_the_header_is_read() {
    let ledger = LedgerInfo::from_json(&fixture()).unwrap().ledger;
    assert!(ledger.accepted);
    assert_eq!(ledger.account_hash, "B258A8BB4743FB74CBBD6E9F67E4A56C4432EA09E5805E4CC2DA26F2DBE8F3D1");
    assert_eq!(ledger.close_flags, 0);
    assert_eq!(ledger.close_time.as_str(), "638329271");
    assert_eq!(ledger.close_time_human, "2020-Mar-24 01:41:11.000000000 UTC");
    assert_eq!(ledger.close_time_resolution.as_str(), "10");
    assert!(ledger.closed);
    assert_eq!(ledger.hash, "3652D7FD0576BC452C0D2E9B747BDD733075971D1A9A1D98125055DEF428721A");
    assert_eq!(ledger.ledger_hash, ledger.hash);
    assert_eq!(ledger.ledger_index, "54300940");
    assert_eq!(ledger.parent_close_time.as_str(), "638329270");
    assert_eq!(ledger.parent_hash, "AE996778246BC81F85D5AF051241DAA577C23BCA04C034A7074F93700194520D");
    assert_eq!(ledger.seqNum, "54300940");
    assert_eq!(ledger.totalCoins, "99991024049618156");
    assert_eq!(ledger.total_coins.as_str(), "99991024049618156");
    assert_eq!(ledger.total_coins.unscaled(), "99991024049618156");
    assert_eq!(ledger.total_coins.scale(), 0);
    assert_eq!(ledger.transaction_hash, "FC6FFCB71B2527DDD630EE5409D38913B4D4C026AA6C3B14A3E9D4ED45CFE30D");
    assert_eq!(ledger.transactions.unwrap().len(), 2);
}

#[test]
fn payment_in_the_native_unit_is_read() {
    let transactions = LedgerInfo::from_json(&fixture()).unwrap().ledger.transactions.unwrap();
    let payment = &transactions[0];
    assert_eq!(payment.Account, "rhhh49pFH96roGyuC4E5P4CHaNjS1k8gzM");
    match &payment.Amount {
        Some(Balance::XRP(amount)) => assert_eq!(amount.as_str(), "1000000000"),
        other => panic!("{:?}", other),
    }
    assert_eq!(payment.Destination.as_deref(), Some("rLNaPoKeeBjZe2qs6x52yVPZpZ8td4dc6w"));
    assert_eq!(payment.Fee.as_str(), "12");
    assert_eq!(payment.Flags, 2147483648);
    assert!(payment.Paths.is_none());
    assert!(payment.SendMax.is_none());
    assert_eq!(payment.Sequence.as_str(), "56");
    assert_eq!(payment.SigningPubKey, "03BC0973F997BC6384BE455B163519A3E96BC2D725C37F7172D5FED5DD38E2A357");
    assert_eq!(payment.TransactionType, "Payment");
    assert!(payment.TxnSignature.starts_with("3045022100E1F7"));
    assert_eq!(payment.hash, "7BF105CFE4EFE78ADB63FE4E03A851440551FE189FD4B51CAAD9279C9F534F0E");
    assert!(payment.LedgerIndex.is_none());
    assert!(payment.validated.is_none());
    assert_eq!(payment.metaData.TransactionIndex.as_str(), "0");
    assert_eq!(payment.metaData.TransactionResult, "tesSUCCESS");
    assert_eq!(payment.metaData.AffectedNodes.len(), 2);
}

#[test]
fn modified_node_is_read() {
    let transactions = LedgerInfo::from_json(&fixture()).unwrap().ledger.transactions.unwrap();
    let nodes = &transactions[0].metaData.AffectedNodes;
    let node = nodes[0].ModifiedNode.as_ref().unwrap();
    assert_eq!(node.LedgerEntryType, "AccountRoot");
    assert_eq!(node.LedgerIndex, "31794F29ED8A7CBF1D5F5E6E1E8D1D9E0C1E6A8B7C0E8E4A8C8B5C2A8C8B5C2A");
    assert_eq!(
        node.PreviousTxnID.as_deref(),
        Some("E5D3E1B0E6B3E5A8C8B5C2A8C8B5C2A31794F29ED8A7CBF1D5F5E6E1E8D1D9E0")
    );
    assert_eq!(node.PreviousTxnLgrSeq.as_ref().unwrap().as_str(), "54300015");
    let after = &node.FinalFields;
    assert_eq!(after.Account.as_deref(), Some("rhhh49pFH96roGyuC4E5P4CHaNjS1k8gzM"));
    match &after.Balance {
        Some(Balance::XRP(amount)) => assert_eq!(amount.as_str(), "20968679496"),
        other => panic!("{:?}", other),
    }
    assert_eq!(after.Flags, 0);
    assert_eq!(after.OwnerCount.as_ref().unwrap().as_str(), "0");
    assert_eq!(after.Sequence.as_ref().unwrap().as_str(), "57");
    let before = node.PreviousFields.as_ref().unwrap();
    match &before.Balance {
        Some(Balance::XRP(amount)) => assert_eq!(amount.as_str(), "21968679508"),
        other => panic!("{:?}", other),
    }
    assert_eq!(before.Sequence.as_ref().unwrap().as_str(), "56");
    // A node of another kind is there, and nothing is read of it.
    assert!(nodes[1].ModifiedNode.is_none());
}

#[test]
fn payment_in_an_issued_currency_is_read() {
    let transactions = LedgerInfo::from_json(&fixture()).unwrap().ledger.transactions.unwrap();
    let payment = &transactions[1];
    match &payment.Amount {
        Some(Balance::Other { currency, issuer, value }) => {
            assert_eq!(currency, "USD");
            assert_eq!(issuer, "rvYAfWj5gh67oV6fW32ZzP3Aw4Eubs59B");
            assert_eq!(value.as_str(), "0.30");
            assert_eq!(value.unscaled(), "30");
            assert_eq!(value.scale(), 2);
        }
        other => panic!("{:?}", other),
    }
    match &payment.SendMax {
        Some(Balance::XRP(amount)) => assert_eq!(amount.as_str(), "311"),
        other => panic!("{:?}", other),
    }
    assert_eq!(payment.LedgerIndex.as_deref(), Some("54300940"));
    assert_eq!(payment.validated, Some(true));
    let paths = payment.Paths.as_ref().unwrap();
    assert_eq!(paths.len(), 1);
    assert_eq!(paths[0].len(), 2);
    assert_eq!(paths[0][0].currency, "USD");
    assert_eq!(paths[0][0].issuer.as_deref(), Some("rvYAfWj5gh67oV6fW32ZzP3Aw4Eubs59B"));
    assert_eq!(paths[0][0].currency_type.as_str(), "48");
    assert_eq!(paths[0][0].type_hex, "0000000000000030");
    assert_eq!(paths[0][1].currency, "XRP");
    assert!(paths[0][1].issuer.is_none());
    assert_eq!(paths[0][1].currency_type.as_str(), "16");
    let node = payment.metaData.AffectedNodes[0].ModifiedNode.as_ref().unwrap();
    assert!(node.PreviousFields.is_none());
    assert!(node.PreviousTxnID.is_none());
    assert!(node.PreviousTxnLgrSeq.is_none());
    assert!(node.FinalFields.Account.is_none());
    assert_eq!(node.FinalFields.Flags, 131072);
    match &node.FinalFields.Balance {
        Some(Balance::Other { value, .. }) => {
            assert_eq!(value.unscaled(), "-12");
            assert_eq!(value.scale(), 1);
        }
        other => panic!("{:?}", other),
    }
}

#[test]
fn missing_member_of_the_result_is_named() {
    let j = changed("\"status\": \"success\",", "");
    assert_eq!(LedgerInfo::from_json(&j).unwrap_err(), ShapeMismatch { path: vec![field("status")] });
}

#[test]
fn missing_member_of_the_header_is_named() {
    let j = changed("\"seqNum\": \"54300940\",", "");
    assert_eq!(
        LedgerInfo::from_json(&j).unwrap_err(),
        ShapeMismatch { path: vec![field("ledger"), field("seqNum")] }
    );
}

#[test]
fn unfit_member_deep_in_a_transaction_is_named() {
    let j = changed("\"Balance\": \"21968679508\"", "\"Balance\": [1]");
    assert_eq!(
        LedgerInfo::from_json(&j).unwrap_err(),
        ShapeMismatch {
            path: vec![
                field("ledger"),
                field("transactions"),
                Step::Index(0),
                field("metaData"),
                field("AffectedNodes"),
                Step::Index(0),
                field("ModifiedNode"),
                field("PreviousFields"),
                field("Balance"),
            ],
        }
    );
}

#[test]
fn unfit_item_of_a_path_is_named() {
    let j = changed("\"type\": 16,", "\"type\": \"sixteen\",");
    assert_eq!(
        LedgerInfo::from_json(&j).unwrap_err(),
        ShapeMismatch {
            path: vec![
                field("ledger"),
                field("transactions"),
                Step::Index(1),
                field("Paths"),
                Step::Index(0),
                Step::Index(1),
                field("type"),
            ],
        }
    );
}

#[test]
fn first_unfit_member_in_the_order_of_the_record_is_named() {
    // `validated` and `ledger_hash` are both unfit; `ledger_hash` comes first in the record.
    let j = changed("\"status\": \"success\",\n  \"validated\": true", "\"status\": \"success\",\n  \"validated\": 1");
    let text = LEDGER
        .replacen("\"status\": \"success\",\n  \"validated\": true", "\"status\": \"success\",\n  \"validated\": 1", 1)
        .replacen("\"ledger_hash\": \"3652D7FD0576BC452C0D2E9B747BDD733075971D1A9A1D98125055DEF428721A\",\n  \"ledger_index\"", "\"ledger_hash\": 5,\n  \"ledger_index\"", 1);
    assert_eq!(LedgerInfo::from_json(&j).unwrap_err(), ShapeMismatch { path: vec![field("validated")] });
    let both = Json::parse(&text).unwrap();
    assert_eq!(LedgerInfo::from_json(&both).unwrap_err(), ShapeMismatch { path: vec![field("ledger_hash")] });
}

#[test]
fn flags_take_a_machine_integer_only() {
    let j = changed("\"Flags\": 2147483648,", "\"Flags\": 2147483648.5,");
    assert_eq!(
        LedgerInfo::from_json(&j).unwrap_err(),
        ShapeMismatch { path: vec![field("ledger"), field("transactions"), Step::Index(0), field("Flags")] }
    );
    let j = changed("\"close_flags\": 0,", "\"close_flags\": \"0\",");
    assert_eq!(
        LedgerInfo::from_json(&j).unwrap_err(),
        ShapeMismatch { path: vec![field("ledger"), field("close_flags")] }
    );
    let j = changed("\"close_flags\": 0,", "\"close_flags\": -3,");
    assert_eq!(LedgerInfo::from_json(&j).unwrap().ledger.close_flags, -3);
}

#[test]
fn null_stands_for_a_member_that_may_be_missing() {
    let j = changed("\"SendMax\": \"311\",", "\"SendMax\": null,");
    let info = LedgerInfo::from_json(&j).unwrap();
    assert!(info.ledger.transactions.unwrap()[1].SendMax.is_none());
    let j = changed("\"Fee\": \"10\",", "\"Fee\": null,");
    assert_eq!(
        LedgerInfo::from_json(&j).unwrap_err(),
        ShapeMismatch { path: vec![field("ledger"), field("transactions"), Step::Index(1), field("Fee")] }
    );
}

#[test]
fn what_is_no_object_is_no_record() {
    for j in [Json::Null, Json::Array(vec![]), Json::string("ledger"), Json::Bool(true)] {
        assert_eq!(LedgerInfo::from_json(&j).unwrap_err(), ShapeMismatch { path: vec![] });
        assert_eq!(TransactionInfo::from_json(&j).unwrap_err(), ShapeMismatch { path: vec![] });
        assert_eq!(PathInfo::from_json(&j).unwrap_err(), ShapeMismatch { path: vec![] });
    }
}

#[test]
fn list_is_read_from_an_array_only() {
    let j = Json::parse("{\"x\": 1}").unwrap();
    assert_eq!(Vec::<String>::from_json(&j).unwrap_err(), ShapeMismatch { path: vec![] });
    let j = Json::parse("[\"a\", \"b\", 3, 4]").unwrap();
    assert_eq!(Vec::<String>::from_json(&j).unwrap_err(), ShapeMismatch { path: vec![Step::Index(2)] });
    let j = Json::parse("[\"a\", \"b\"]").unwrap();
    assert_eq!(Vec::<String>::from_json(&j).unwrap(), vec!["a".to_string(), "b".to_string()]);
    let j = Json::parse("[]").unwrap();
    assert_eq!(Vec::<bool>::from_json(&j).unwrap(), Vec::<bool>::new());
}
