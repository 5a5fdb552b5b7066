use xrp_rpc::codec::{FromJson, ShapeMismatch, ToJson};
use xrp_rpc::decimal::Decimal;
use xrp_rpc::integer::Integer;
use xrp_rpc::json::{Json, Member};
use xrp_rpc::ledger_index::LedgerIndex;

fn read(text: &str) -> Result<LedgerIndex, ShapeMismatch> {
    LedgerIndex::from_json(&Json::parse(text).unwrap())
}

#[test]
fn current_index_alone_is_current() {
    match read("{\"ledger_current_index\": 54300020}").unwrap() {
        LedgerIndex::Current { ledger_current_index } => {
            assert_eq!(ledger_current_index.as_str(), "54300020");
            assert_eq!(ledger_current_index.scale(), 0);
        }
        other => panic!("{:?}", other),
    }
    match read("{\"ledger_current_index\": \"54300020\"}").unwrap() {
        LedgerIndex::Current { ledger_current_index } => {
            assert_eq!(ledger_current_index.as_str(), "54300020");
        }
        other => panic!("{:?}", other),
    }
}

#[test]
fn integer_index_is_number() {
    match read("{\"ledger_index\": 14380380}").unwrap() {
        LedgerIndex::Number { ledger_index } => {
            assert_eq!(ledger_index.as_str(), "14380380");
            assert_eq!(ledger_index.to_u64(), Some(14380380));
        }
        other => panic!("{:?}", other),
    }
}

#[test]
fn integer_index_of_any_size_or_sign_is_number() {
    match read("{\"ledger_index\": -1}").unwrap() {
        LedgerIndex::Number { ledger_index } => assert_eq!(ledger_index.to_i64(), Some(-1)),
        other => panic!("{:?}", other),
    }
    match read("{\"ledger_index\": 340282366920938463463374607431768211456}").unwrap() {
        LedgerIndex::Number { ledger_index } => {
            assert_eq!(ledger_index.as_str(), "340282366920938463463374607431768211456");
            assert_eq!(ledger_index.to_u64(), None);
        }
        other => panic!("{:?}", other),
    }
}

#[test]
fn string_index_is_str_value() {
    for name in ["validated", "closed", "current", "14380380", ""] {
        let j = Json::Object(vec![Member::new("ledger_index", Json::string(name))]);
        match LedgerIndex::from_json(&j).unwrap() {
            LedgerIndex::StrValue { ledger_index } => assert_eq!(ledger_index, name),
            other => panic!("{:?}", other),
        }
    }
}

#[test]
fn neither_member_is_no_selector() {
    assert_eq!(read("{}").unwrap_err(), ShapeMismatch { path: vec![] });
    assert_eq!(read("{\"ledger_hash\": \"AB\", \"index\": 3}").unwrap_err(), ShapeMismatch { path: vec![] });
}

#[test]
fn what_is_no_object_is_no_selector() {
    for text in ["null", "5", "\"validated\"", "[{\"ledger_index\": 5}]"] {
        assert_eq!(read(text).unwrap_err(), ShapeMismatch { path: vec![] }, "{}", text);
    }
}

#[test]
fn index_of_another_kind_is_no_selector() {
    for text in [
        "{\"ledger_index\": 1.5}",
        "{\"ledger_index\": 1e3}",
        "{\"ledger_index\": true}",
        "{\"ledger_index\": null}",
        "{\"ledger_index\": [5]}",
        "{\"ledger_index\": {\"ledger_index\": 5}}",
    ] {
        assert_eq!(read(text).unwrap_err(), ShapeMismatch { path: vec![] }, "{}", text);
    }
}

#[test]
fn current_is_tried_first() {
    match read("{\"ledger_index\": \"validated\", \"ledger_current_index\": 7}").unwrap() {
        LedgerIndex::Current { ledger_current_index } => assert_eq!(ledger_current_index.as_str(), "7"),
        other => panic!("{:?}", other),
    }
    match read("{\"ledger_index\": 9, \"ledger_current_index\": \"7.5\"}").unwrap() {
        LedgerIndex::Current { ledger_current_index } => assert_eq!(ledger_current_index.as_str(), "7.5"),
        other => panic!("{:?}", other),
    }
}

#[test]
fn current_that_does_not_fit_lets_the_next_variant_in() {
    match read("{\"ledger_current_index\": true, \"ledger_index\": 9}").unwrap() {
        LedgerIndex::Number { ledger_index } => assert_eq!(ledger_index.as_str(), "9"),
        other => panic!("{:?}", other),
    }
    match read("{\"ledger_current_index\": \"soon\", \"ledger_index\": \"closed\"}").unwrap() {
        LedgerIndex::StrValue { ledger_index } => assert_eq!(ledger_index, "closed"),
        other => panic!("{:?}", other),
    }
    assert_eq!(read("{\"ledger_current_index\": null}").unwrap_err(), ShapeMismatch { path: vec![] });
}

#[test]
fn each_variant_is_written_as_its_member() {
    let current = LedgerIndex::Current { ledger_current_index: Decimal::parse("54300020").unwrap() };
    assert_eq!(current.member(), Member::new("ledger_current_index", Json::string("54300020")));
    assert_eq!(
        current.to_json(),
        Json::Object(vec![Member::new("ledger_current_index", Json::string("54300020"))])
    );
    let number = LedgerIndex::Number { ledger_index: Integer::from_u64(14380380) };
    assert_eq!(number.member(), Member::new("ledger_index", Json::Number("14380380".to_string())));
    let name = LedgerIndex::StrValue { ledger_index: "validated".to_string() };
    assert_eq!(name.member(), Member::new("ledger_index", Json::string("validated")));
}

#[test]
fn round_trip_of_each_variant() {
    let current = LedgerIndex::Current { ledger_current_index: Decimal::parse("12").unwrap() };
    match LedgerIndex::from_json(&current.to_json()).unwrap() {
        LedgerIndex::Current { ledger_current_index } => assert_eq!(ledger_current_index.as_str(), "12"),
        other => panic!("{:?}", other),
    }
    let number = LedgerIndex::Number { ledger_index: Integer::from_u64(12) };
    match LedgerIndex::from_json(&number.to_json()).unwrap() {
        LedgerIndex::Number { ledger_index } => assert_eq!(ledger_index.to_u64(), Some(12)),
        other => panic!("{:?}", other),
    }
    let name = LedgerIndex::StrValue { ledger_index: "12".to_string() };
    match LedgerIndex::from_json(&name.to_json()).unwrap() {
        LedgerIndex::StrValue { ledger_index } => assert_eq!(ledger_index, "12"),
        other => panic!("{:?}", other),
    }
}

#[test]
fn clone_keeps_the_variant() {
    let number = LedgerIndex::Number { ledger_index: Integer::from_u64(3) };
    assert_eq!(number.clone().member(), number.member());
}
