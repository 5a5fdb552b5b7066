//! The parameters of each request, and the JSON objects that write them.

use vstd::prelude::*;
use crate::account::Account;
use crate::codec::{FromJson, MismatchModel, ToJson};
use crate::integer::integer_literal;
use crate::json::{find_member, members_model, Json, JsonModel, Member, MemberModel};
use crate::ledger_index::{ledger_index_member, LedgerIndex, LedgerIndexModel};

verus! {

/// The JSON value of a flag that may be left out: the flag, or null.
pub open spec fn flag_json(flag: Option<bool>) -> JsonModel {
    match flag {
        Some(value) => JsonModel::Bool(value),
        None => JsonModel::Null,
    }
}

/// The JSON value of an integer that may be left out: its literal, or null.
pub open spec fn integer_json(integer: Option<int>) -> JsonModel {
    match integer {
        Some(value) => JsonModel::Number(integer_literal(value)),
        None => JsonModel::Null,
    }
}

/// The JSON value of a text that may be left out: a string, or null.
pub open spec fn text_json(text: Option<Seq<char>>) -> JsonModel {
    match text {
        Some(value) => JsonModel::Str(value),
        None => JsonModel::Null,
    }
}

/// The member that holds `value` under `key`.
pub open spec fn entry(key: Seq<char>, value: JsonModel) -> MemberModel {
    MemberModel { key, value }
}

fn flag_value(flag: Option<bool>) -> (j: Json)
    ensures
        j@ == flag_json(flag),
{
    match flag {
        Some(value) => Json::Bool(value),
        None => Json::Null,
    }
}

fn signed_value(integer: Option<i64>) -> (j: Json)
    ensures
        j@ == integer_json(
            match integer {
                Some(value) => Some(value as int),
                None => None,
            },
        ),
{
    match integer {
        Some(value) => Json::number_i64(value),
        None => Json::Null,
    }
}

fn unsigned_value(integer: Option<u64>) -> (j: Json)
    ensures
        j@ == integer_json(
            match integer {
                Some(value) => Some(value as int),
                None => None,
            },
        ),
{
    match integer {
        Some(value) => Json::number_u64(value),
        None => Json::Null,
    }
}

fn text_value(text: Option<&str>) -> (j: Json)
    ensures
        j@ == text_json(
            match text {
                Some(value) => Some(value@),
                None => None,
            },
        ),
{
    match text {
        Some(value) => Json::string(value),
        None => Json::Null,
    }
}

/// The parameters of `account_info`.
#[derive(Debug, Clone)]
pub struct AccountInfoParams<'a> {
    pub account: &'a Account,
    pub strict: bool,
    /// Written among the other members, not under a key of its own.
    pub ledger_index: LedgerIndex,
    pub queue: bool,
}

impl<'a> ToJson for AccountInfoParams<'a> {
    open spec fn encode(&self) -> JsonModel {
        JsonModel::Object(
            seq![
                entry("account"@, JsonModel::Str(self.account@)),
                entry("strict"@, JsonModel::Bool(self.strict)),
                ledger_index_member(self.ledger_index.deep_view()),
                entry("queue"@, JsonModel::Bool(self.queue)),
            ],
        )
    }

    fn to_json(&self) -> (j: Json) {
        let mut members: Vec<Member> = Vec::new();
        members.push(Member::new("account", Json::string(self.account.as_str())));
        members.push(Member::new("strict", Json::Bool(self.strict)));
        members.push(self.ledger_index.member());
        members.push(Member::new("queue", Json::Bool(self.queue)));
        proof {
            assert(members_model(members@) =~= self.encode()->Object_0);
        }
        Json::object(members)
    }
}

/// The parameters of `account_tx`.
#[derive(Debug, Clone)]
pub struct AccountTxParams<'a, 'b> {
    pub account: &'a Account,
    pub ledger_index_min: Option<i64>,
    pub ledger_index_max: Option<i64>,
    pub ledger_hash: Option<&'b str>,
    /// Written among the other members, not under a key of its own; where
    /// there is none, nothing is written for it.
    pub ledger_index: Option<LedgerIndex>,
    pub binary: Option<bool>,
    pub forward: Option<bool>,
    pub limit: Option<u64>,
}

/// The members that write a selector which may be left out.
pub open spec fn selector_members(selector: Option<LedgerIndexModel>) -> Seq<MemberModel> {
    match selector {
        Some(value) => seq![ledger_index_member(value)],
        None => Seq::empty(),
    }
}

/// An integer that may be left out, as a mathematical integer.
pub open spec fn signed_int(integer: Option<i64>) -> Option<int> {
    match integer {
        Some(value) => Some(value as int),
        None => None,
    }
}

/// An integer that may be left out, as a mathematical integer.
pub open spec fn unsigned_int(integer: Option<u64>) -> Option<int> {
    match integer {
        Some(value) => Some(value as int),
        None => None,
    }
}

/// A borrowed text that may be left out, as a sequence of characters.
pub open spec fn borrowed_text(text: Option<&str>) -> Option<Seq<char>> {
    match text {
        Some(value) => Some(value@),
        None => None,
    }
}

impl<'a, 'b> ToJson for AccountTxParams<'a, 'b> {
    open spec fn encode(&self) -> JsonModel {
        JsonModel::Object(
            seq![
                entry("account"@, JsonModel::Str(self.account@)),
                entry("ledger_index_min"@, integer_json(signed_int(self.ledger_index_min))),
                entry("ledger_index_max"@, integer_json(signed_int(self.ledger_index_max))),
                entry("ledger_hash"@, text_json(borrowed_text(self.ledger_hash))),
            ] + selector_members(self.ledger_index.deep_view()) + seq![
                entry("binary"@, flag_json(self.binary)),
                entry("forward"@, flag_json(self.forward)),
                entry("limit"@, integer_json(unsigned_int(self.limit))),
            ],
        )
    }

    fn to_json(&self) -> (j: Json) {
        let mut members: Vec<Member> = Vec::new();
        members.push(Member::new("account", Json::string(self.account.as_str())));
        members.push(Member::new("ledger_index_min", signed_value(self.ledger_index_min)));
        members.push(Member::new("ledger_index_max", signed_value(self.ledger_index_max)));
        members.push(Member::new("ledger_hash", text_value(self.ledger_hash)));
        match &self.ledger_index {
            Some(selector) => {
                members.push(selector.member());
            },
            None => {},
        }
        members.push(Member::new("binary", flag_value(self.binary)));
        members.push(Member::new("forward", flag_value(self.forward)));
        members.push(Member::new("limit", unsigned_value(self.limit)));
        proof {
            assert(members_model(members@) =~= self.encode()->Object_0);
        }
        Json::object(members)
    }
}

/// The selector of `account_info` stands among the other parameters, and
/// is read out of the object that writes them as the selector that it is.
pub proof fn lemma_account_info_selector(params: AccountInfoParams)
    requires
        params.ledger_index.deep_view().well_formed(),
    ensures
        LedgerIndex::decode(params.encode()) == Ok::<LedgerIndexModel, MismatchModel>(
            params.ledger_index.deep_view(),
        ),
{
    reveal_strlit("account");
    reveal_strlit("strict");
    reveal_strlit("queue");
    reveal_strlit("ledger_index");
    reveal_strlit("ledger_current_index");
    let members = params.encode()->Object_0;
    assert(members[0].key == "account"@);
    assert(members[1].key == "strict"@);
    assert(members[2] == ledger_index_member(params.ledger_index.deep_view()));
    assert(members[3].key == "queue"@);
    assert("account"@.len() == 7 && "strict"@.len() == 6 && "queue"@.len() == 5);
    assert("ledger_index"@.len() == 12 && "ledger_current_index"@.len() == 20);
    reveal_with_fuel(find_member, 5);
}

/// The selector of `account_tx`, where there is one, is read out of the
/// object that writes the parameters as the selector that it is; where
/// there is none, no selector is read out of that object.
pub proof fn lemma_account_tx_selector(params: AccountTxParams)
    requires
        params.ledger_index matches Some(selector) ==> selector.deep_view().well_formed(),
    ensures
        LedgerIndex::decode(params.encode()) == (match params.ledger_index {
            Some(selector) => Ok::<LedgerIndexModel, MismatchModel>(selector.deep_view()),
            None => Err(MismatchModel::here()),
        }),
{
    reveal_strlit("account");
    reveal_strlit("ledger_index_min");
    reveal_strlit("ledger_index_max");
    reveal_strlit("ledger_hash");
    reveal_strlit("binary");
    reveal_strlit("forward");
    reveal_strlit("limit");
    reveal_strlit("ledger_index");
    reveal_strlit("ledger_current_index");
    let members = params.encode()->Object_0;
    assert("account"@.len() == 7 && "ledger_index_min"@.len() == 16);
    assert("ledger_index_max"@.len() == 16 && "ledger_hash"@.len() == 11);
    assert("binary"@.len() == 6 && "forward"@.len() == 7 && "limit"@.len() == 5);
    assert("ledger_index"@.len() == 12 && "ledger_current_index"@.len() == 20);
    assert(members[0].key == "account"@);
    assert(members[1].key == "ledger_index_min"@);
    assert(members[2].key == "ledger_index_max"@);
    assert(members[3].key == "ledger_hash"@);
    match params.ledger_index {
        Some(selector) => {
            assert(members[4] == ledger_index_member(selector.deep_view()));
            assert(members[5].key == "binary"@);
            assert(members[6].key == "forward"@);
            assert(members[7].key == "limit"@);
            assert(members.len() == 8);
        },
        None => {
            assert(members[4].key == "binary"@);
            assert(members[5].key == "forward"@);
            assert(members[6].key == "limit"@);
            assert(members.len() == 7);
        },
    }
    reveal_with_fuel(find_member, 9);
}

/// The parameters of `ledger`.
#[derive(Debug)]
pub struct LedgerInfoParams {
    pub ledger_hash: Option<String>,
    pub ledger_index: Option<String>,
    pub full: Option<bool>,
    pub accounts: Option<bool>,
    pub transactions: Option<bool>,
    pub expand: Option<bool>,
    pub owner_funds: Option<bool>,
    pub binary: Option<bool>,
    pub queue: Option<bool>,
}

/// An owned text that may be left out, as a sequence of characters.
pub open spec fn owned_text(text: Option<String>) -> Option<Seq<char>> {
    match text {
        Some(value) => Some(value@),
        None => None,
    }
}

fn owned_text_value(text: &Option<String>) -> (j: Json)
    ensures
        j@ == text_json(owned_text(*text)),
{
    match text {
        Some(value) => Json::string(value.as_str()),
        None => Json::Null,
    }
}

impl ToJson for LedgerInfoParams {
    open spec fn encode(&self) -> JsonModel {
        JsonModel::Object(
            seq![
                entry("ledger_hash"@, text_json(owned_text(self.ledger_hash))),
                entry("ledger_index"@, text_json(owned_text(self.ledger_index))),
                entry("full"@, flag_json(self.full)),
                entry("accounts"@, flag_json(self.accounts)),
                entry("transactions"@, flag_json(self.transactions)),
                entry("expand"@, flag_json(self.expand)),
                entry("owner_funds"@, flag_json(self.owner_funds)),
                entry("binary"@, flag_json(self.binary)),
                entry("queue"@, flag_json(self.queue)),
            ],
        )
    }

    fn to_json(&self) -> (j: Json) {
        let mut members: Vec<Member> = Vec::new();
        members.push(Member::new("ledger_hash", owned_text_value(&self.ledger_hash)));
        members.push(Member::new("ledger_index", owned_text_value(&self.ledger_index)));
        members.push(Member::new("full", flag_value(self.full)));
        members.push(Member::new("accounts", flag_value(self.accounts)));
        members.push(Member::new("transactions", flag_value(self.transactions)));
        members.push(Member::new("expand", flag_value(self.expand)));
        members.push(Member::new("owner_funds", flag_value(self.owner_funds)));
        members.push(Member::new("binary", flag_value(self.binary)));
        members.push(Member::new("queue", flag_value(self.queue)));
        proof {
            assert(members_model(members@) =~= self.encode()->Object_0);
        }
        Json::object(members)
    }
}

} // verus!
