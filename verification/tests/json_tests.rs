use xrp_rpc::json::{Json, Member};
use xrp_rpc::text::text_eq;

#[test]
fn texts_are_compared_by_their_characters() {
    assert!(text_eq("", ""));
    assert!(text_eq("ledger_index", "ledger_index"));
    assert!(!text_eq("ledger_index", "ledger_indey"));
    assert!(!text_eq("ledger", "ledger_index"));
    assert!(text_eq("héllo", "héllo"));
    assert!(!text_eq("héllo", "hello"));
}

#[test]
fn document_is_read_into_values() {
    let document = Json::parse("{\"b\": 1.50, \"a\": [true, null, \"x\"], \"c\": {\"d\": -7}}").unwrap();
    assert_eq!(document.get("b"), Some(&Json::Number("1.50".to_string())));
    assert_eq!(
        document.get("a"),
        Some(&Json::Array(vec![Json::Bool(true), Json::Null, Json::Str("x".to_string())]))
    );
    assert_eq!(
        document.get("c"),
        Some(&Json::Object(vec![Member { key: "d".to_string(), value: Json::Number("-7".to_string()) }]))
    );
    assert_eq!(document.get("missing"), None);
}

#[test]
fn numbers_keep_their_digits() {
    let text = "[0.10, 1e5, 123456789012345678901234567890, -0, 1.0E-3]";
    let expected = Json::Array(vec![
        Json::Number("0.10".to_string()),
        Json::Number("1e+5".to_string()),
        Json::Number("123456789012345678901234567890".to_string()),
        Json::Number("-0".to_string()),
        Json::Number("1.0e-3".to_string()),
    ]);
    assert_eq!(Json::parse(text), Some(expected));
}

#[test]
fn scalars_are_documents() {
    assert_eq!(Json::parse("null"), Some(Json::Null));
    assert_eq!(Json::parse(" true "), Some(Json::Bool(true)));
    assert_eq!(Json::parse("\"a\\nb\""), Some(Json::Str("a\nb".to_string())));
    assert_eq!(Json::parse("12"), Some(Json::Number("12".to_string())));
}

#[test]
fn what_is_no_document_is_refused() {
    for text in ["", "{", "[1,]", "{\"a\":}", "nul", "1 2", "{'a': 1}", "\"open"] {
        assert_eq!(Json::parse(text), None, "{}", text);
    }
}

#[test]
fn lookup_finds_the_first_member_of_a_key() {
    let object = Json::Object(vec![
        Member::new("k", Json::Bool(true)),
        Member::new("other", Json::Null),
        Member::new("k", Json::Bool(false)),
    ]);
    assert_eq!(object.get("k"), Some(&Json::Bool(true)));
    assert_eq!(object.get("other"), Some(&Json::Null));
    assert_eq!(object.get("K"), None);
}

#[test]
fn lookup_in_what_is_no_object_finds_nothing() {
    assert_eq!(Json::Null.get("k"), None);
    assert_eq!(Json::Array(vec![Json::string("k")]).get("k"), None);
    assert_eq!(Json::string("k").get("k"), None);
}

#[test]
fn builders_make_the_values() {
    assert_eq!(Json::string("abc"), Json::Str("abc".to_string()));
    assert_eq!(Json::number_u64(18446744073709551615), Json::Number("18446744073709551615".to_string()));
    assert_eq!(Json::number_i64(-42), Json::Number("-42".to_string()));
    assert_eq!(Json::array(vec![Json::Null]), Json::Array(vec![Json::Null]));
    let member = Member::new("key", Json::Bool(false));
    assert_eq!(member, Member { key: "key".to_string(), value: Json::Bool(false) });
    assert_eq!(Json::object(vec![member]), Json::Object(vec![Member::new("key", Json::Bool(false))]));
}

#[test]
fn clone_copies_every_part() {
    let document = Json::parse("{\"a\": [1, {\"b\": [\"x\", null, false]}], \"c\": \"d\"}").unwrap();
    assert_eq!(document.clone(), document);
}

#[test]
fn document_is_written_as_text() {
    assert_eq!(Json::Null.render().unwrap(), "null");
    assert_eq!(Json::Bool(false).render().unwrap(), "false");
    assert_eq!(Json::string("a\"b\n").render().unwrap(), "\"a\\\"b\\n\"");
    assert_eq!(Json::Number("1.50".to_string()).render().unwrap(), "1.50");
    assert_eq!(Json::number_i64(-12).render().unwrap(), "-12");
    let document = Json::Object(vec![
        Member::new("method", Json::string("ledger")),
        Member::new("params", Json::Array(vec![Json::Object(vec![Member::new("full", Json::Null)])])),
    ]);
    assert_eq!(document.render().unwrap(), "{\"method\":\"ledger\",\"params\":[{\"full\":null}]}");
}

#[test]
fn written_text_is_read_as_the_same_document() {
    let text = "{\"a\": [1, 2.50, {\"b\": \"x\\u00e9\"}], \"c\": null, \"d\": -0}";
    let document = Json::parse(text).unwrap();
    let written = document.render().unwrap();
    assert_eq!(written, "{\"a\":[1,2.50,{\"b\":\"x\u{e9}\"}],\"c\":null,\"d\":-0}");
    assert_eq!(Json::parse(&written), Some(document));
}

#[test]
fn number_that_is_none_has_no_text() {
    assert_eq!(Json::Number("12abc".to_string()).render(), None);
    assert_eq!(Json::Number(String::new()).render(), None);
    assert_eq!(Json::Array(vec![Json::Null, Json::Number("1.".to_string())]).render(), None);
}

fn nested(depth: usize) -> Json {
    let mut value = Json::Null;
    for level in 0..depth {
        value = if level % 2 == 0 {
            Json::Array(vec![Json::Bool(true), value])
        } else {
            Json::Object(vec![Member::new("k", value)])
        };
    }
    value
}

#[test]
fn nesting_is_measured() {
    assert!(Json::Null.nests_within(0));
    assert!(Json::string("x").nests_within(0));
    assert!(!Json::Array(vec![]).nests_within(0));
    assert!(Json::Array(vec![]).nests_within(1));
    assert!(!Json::Object(vec![]).nests_within(0));
    assert!(Json::Object(vec![]).nests_within(1));
    assert!(nested(3).nests_within(3));
    assert!(nested(3).nests_within(4));
    assert!(!nested(3).nests_within(2));
    assert!(!Json::Array(vec![Json::Null, nested(2), Json::Null]).nests_within(2));
    assert!(Json::Array(vec![Json::Null, nested(2), Json::Null]).nests_within(3));
}

#[test]
fn document_that_nests_too_deep_has_no_text() {
    assert!(nested(128).render().is_some());
    assert_eq!(nested(129).render(), None);
}
