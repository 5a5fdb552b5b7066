use xrp_rpc::account::{account_validate, Account, ValidationError, MAX_LENGTH, MIN_LENGTH};
use xrp_rpc::codec::{FromJson, ShapeMismatch};
use xrp_rpc::json::Json;

fn text_of(length: usize, first: char) -> String {
    let mut text = String::new();
    text.push(first);
    while text.len() < length {
        text.push('x');
    }
    text
}

#[test]
fn valid_text_is_kept_unchanged() {
    let text = "rG1QQv2nh2gr7RCZ1P8YYcBUKCCN633jCn";
    let account = Account::from_str(text).unwrap();
    assert_eq!(account.as_str(), text);
    assert_eq!(account_validate(text), Ok(text.to_string()));
}

#[test]
fn no_normalisation_of_case_or_space() {
    let text = "r  MiXeD case and spaces kept  ";
    assert_eq!(text.len(), 31);
    assert_eq!(Account::from_str(text).unwrap().as_str(), text);
}

#[test]
fn shortest_and_longest_are_accepted() {
    let shortest = text_of(MIN_LENGTH, 'r');
    let longest = text_of(MAX_LENGTH, 'r');
    assert_eq!(shortest.len(), 25);
    assert_eq!(longest.len(), 35);
    assert_eq!(account_validate(&shortest), Ok(shortest.clone()));
    assert_eq!(account_validate(&longest), Ok(longest.clone()));
}

#[test]
fn one_byte_less_is_too_short() {
    let text = text_of(24, 'r');
    assert_eq!(account_validate(&text), Err(ValidationError::TooShort));
    assert_eq!(Account::from_str(&text).unwrap_err(), ValidationError::TooShort);
}

#[test]
fn one_byte_more_is_too_long() {
    let text = text_of(36, 'r');
    assert_eq!(account_validate(&text), Err(ValidationError::TooLong));
    assert_eq!(Account::from_str(&text).unwrap_err(), ValidationError::TooLong);
}

#[test]
fn other_first_character_is_bad_prefix() {
    let text = text_of(30, 'x');
    assert_eq!(account_validate(&text), Err(ValidationError::BadPrefix));
    assert_eq!(Account::from_str(&text).unwrap_err(), ValidationError::BadPrefix);
    let upper = text_of(30, 'R');
    assert_eq!(account_validate(&upper), Err(ValidationError::BadPrefix));
}

#[test]
fn empty_text_is_too_short() {
    assert_eq!(account_validate(""), Err(ValidationError::TooShort));
}

#[test]
fn length_is_checked_before_prefix() {
    assert_eq!(account_validate("xShort"), Err(ValidationError::TooShort));
}

#[test]
fn prefix_is_checked_before_upper_bound() {
    let text = text_of(40, 'q');
    assert_eq!(account_validate(&text), Err(ValidationError::BadPrefix));
}

#[test]
fn length_counts_bytes() {
    // 'r' and twelve characters of two bytes each: 13 characters, 25 bytes.
    let mut text = String::from("r");
    for _ in 0..12 {
        text.push('é');
    }
    assert_eq!(text.chars().count(), 13);
    assert_eq!(text.len(), 25);
    assert_eq!(account_validate(&text), Ok(text.clone()));
    // 'r' and eighteen such characters: 19 characters, 37 bytes.
    let mut long = String::from("r");
    for _ in 0..18 {
        long.push('é');
    }
    assert_eq!(account_validate(&long), Err(ValidationError::TooLong));
}

#[test]
fn first_character_of_several_bytes_is_bad_prefix() {
    let mut text = String::from("é");
    while text.len() < 30 {
        text.push('r');
    }
    assert_eq!(account_validate(&text), Err(ValidationError::BadPrefix));
}

#[test]
fn error_sentences() {
    assert_eq!(ValidationError::TooShort.describe(), "shorter than 25 chars");
    assert_eq!(ValidationError::BadPrefix.describe(), "does not start with r");
    assert_eq!(ValidationError::TooLong.describe(), "longer than 35 chars");
}

#[test]
fn parse_through_the_standard_trait() {
    let account: Account = "rG1QQv2nh2gr7RCZ1P8YYcBUKCCN633jCn".parse().unwrap();
    assert_eq!(account.as_str(), "rG1QQv2nh2gr7RCZ1P8YYcBUKCCN633jCn");
    let refused: Result<Account, ValidationError> = "nope".parse();
    assert_eq!(refused.unwrap_err(), ValidationError::TooShort);
}

#[test]
fn clone_keeps_the_text() {
    let account = Account::from_str("rG1QQv2nh2gr7RCZ1P8YYcBUKCCN633jCn").unwrap();
    assert_eq!(account.clone().as_str(), account.as_str());
}

#[test]
fn account_is_read_from_a_string_of_its_shape_only() {
    let good = Json::string("rG1QQv2nh2gr7RCZ1P8YYcBUKCCN633jCn");
    assert_eq!(Account::from_json(&good).unwrap().as_str(), "rG1QQv2nh2gr7RCZ1P8YYcBUKCCN633jCn");
    let short = Json::string("rShort");
    assert_eq!(Account::from_json(&short).unwrap_err(), ShapeMismatch { path: vec![] });
    assert_eq!(Account::from_json(&Json::Null).unwrap_err(), ShapeMismatch { path: vec![] });
}
