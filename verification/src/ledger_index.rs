//! Selecting a ledger version: the current one, one by number, or one by name.

use vstd::prelude::*;
use crate::codec::{get_required, required, FromJson, MismatchModel, ShapeMismatch, ToJson};
use crate::decimal::{is_decimal, Decimal};
use crate::integer::{is_integer_literal, Integer};
use crate::json::{find_member, members_model, Json, JsonModel, Member, MemberModel};

verus! {

/// Which version of the ledger a request asks for, or a reply speaks of.
///
/// In JSON the selector has no object of its own: its one member stands
/// among the members of the record that holds the selector.
#[derive(Debug)]
#[allow(inconsistent_fields)]
pub enum LedgerIndex {
    /// The ledger in progress.
    Current { ledger_current_index: Decimal },
    /// The ledger with this sequence number.
    Number { ledger_index: Integer },
    /// The ledger with this name, such as `validated` or `closed`, or with
    /// this number written as a string.
    StrValue { ledger_index: String },
}

/// Mathematical model of a [`LedgerIndex`]; decimals and integers are the
/// texts that write them.
#[allow(inconsistent_fields)]
pub ghost enum LedgerIndexModel {
    Current { ledger_current_index: Seq<char> },
    Number { ledger_index: Seq<char> },
    StrValue { ledger_index: Seq<char> },
}

impl LedgerIndexModel {
    /// True where the decimal of `Current` and the integer of `Number` are
    /// texts that write one, as they are in every [`LedgerIndex`].
    pub open spec fn well_formed(self) -> bool {
        match self {
            LedgerIndexModel::Current { ledger_current_index } => is_decimal(ledger_current_index),
            LedgerIndexModel::Number { ledger_index } => is_integer_literal(ledger_index),
            LedgerIndexModel::StrValue { ledger_index } => true,
        }
    }
}

impl DeepView for LedgerIndex {
    type V = LedgerIndexModel;

    open spec fn deep_view(&self) -> LedgerIndexModel {
        match self {
            LedgerIndex::Current { ledger_current_index } => LedgerIndexModel::Current {
                ledger_current_index: ledger_current_index@,
            },
            LedgerIndex::Number { ledger_index } => LedgerIndexModel::Number {
                ledger_index: ledger_index@,
            },
            LedgerIndex::StrValue { ledger_index } => LedgerIndexModel::StrValue {
                ledger_index: ledger_index@,
            },
        }
    }
}

/// The member that writes a selector: the decimal of `Current` as a string,
/// the integer of `Number` as a number, the name of `StrValue` as a string.
pub open spec fn ledger_index_member(selector: LedgerIndexModel) -> MemberModel {
    match selector {
        LedgerIndexModel::Current { ledger_current_index } => MemberModel {
            key: "ledger_current_index"@,
            value: JsonModel::Str(ledger_current_index),
        },
        LedgerIndexModel::Number { ledger_index } => MemberModel {
            key: "ledger_index"@,
            value: JsonModel::Number(ledger_index),
        },
        LedgerIndexModel::StrValue { ledger_index } => MemberModel {
            key: "ledger_index"@,
            value: JsonModel::Str(ledger_index),
        },
    }
}

impl FromJson for LedgerIndex {
    /// The variants are tried in the order `Current`, `Number`, `StrValue`,
    /// and the first that fits is taken: `Current` where the member
    /// `ledger_current_index` writes a decimal, `Number` where the member
    /// `ledger_index` is an integer, `StrValue` where it is a string.
    open spec fn decode(j: JsonModel) -> Result<LedgerIndexModel, MismatchModel> {
        let current = required::<Decimal>(j, "ledger_current_index"@);
        let number = required::<Integer>(j, "ledger_index"@);
        let name = required::<String>(j, "ledger_index"@);
        if current is Ok {
            Ok(LedgerIndexModel::Current { ledger_current_index: current->Ok_0 })
        } else if number is Ok {
            Ok(LedgerIndexModel::Number { ledger_index: number->Ok_0 })
        } else if name is Ok {
            Ok(LedgerIndexModel::StrValue { ledger_index: name->Ok_0 })
        } else {
            Err(MismatchModel::here())
        }
    }

    fn from_json(j: &Json) -> (outcome: Result<LedgerIndex, ShapeMismatch>) {
        let current: Result<Decimal, ShapeMismatch> = get_required(j, "ledger_current_index");
        if let Ok(ledger_current_index) = current {
            return Ok(LedgerIndex::Current { ledger_current_index });
        }
        let number: Result<Integer, ShapeMismatch> = get_required(j, "ledger_index");
        if let Ok(ledger_index) = number {
            return Ok(LedgerIndex::Number { ledger_index });
        }
        let name: Result<String, ShapeMismatch> = get_required(j, "ledger_index");
        if let Ok(ledger_index) = name {
            return Ok(LedgerIndex::StrValue { ledger_index });
        }
        Err(ShapeMismatch::here())
    }
}

impl LedgerIndex {
    /// The member that writes the selector among the members of a record.
    pub fn member(&self) -> (member: Member)
        ensures
            member@ == ledger_index_member(self.deep_view()),
            self.deep_view().well_formed(),
    {
        match self {
            LedgerIndex::Current { ledger_current_index } => Member::new(
                "ledger_current_index",
                Json::string(ledger_current_index.as_str()),
            ),
            LedgerIndex::Number { ledger_index } => Member::new(
                "ledger_index",
                Json::Number(ledger_index.as_str().to_owned()),
            ),
            LedgerIndex::StrValue { ledger_index } => Member::new(
                "ledger_index",
                Json::string(ledger_index.as_str()),
            ),
        }
    }
}

impl Clone for LedgerIndex {
    fn clone(&self) -> (same: LedgerIndex)
        ensures
            same.deep_view() == self.deep_view(),
    {
        match self {
            LedgerIndex::Current { ledger_current_index } => LedgerIndex::Current {
                ledger_current_index: ledger_current_index.clone(),
            },
            LedgerIndex::Number { ledger_index } => LedgerIndex::Number {
                ledger_index: ledger_index.clone(),
            },
            LedgerIndex::StrValue { ledger_index } => LedgerIndex::StrValue {
                ledger_index: ledger_index.clone(),
            },
        }
    }
}

impl ToJson for LedgerIndex {
    /// On its own a selector is the object of its one member.
    open spec fn encode(&self) -> JsonModel {
        JsonModel::Object(seq![ledger_index_member(self.deep_view())])
    }

    fn to_json(&self) -> (j: Json) {
        let mut members: Vec<Member> = Vec::new();
        members.push(self.member());
        proof {
            assert(members_model(members@) =~= seq![ledger_index_member(self.deep_view())]);
        }
        Json::object(members)
    }
}

/// The two keys under which a selector is written are different texts.
pub proof fn lemma_selector_keys()
    ensures
        "ledger_current_index"@ != "ledger_index"@,
{
    reveal_strlit("ledger_current_index");
    reveal_strlit("ledger_index");
    assert("ledger_current_index"@.len() != "ledger_index"@.len());
}

/// Which variant a payload is read as. With a member `ledger_current_index`
/// that writes a decimal it is `Current`, whatever else it holds. Without
/// such a member: with an integer under `ledger_index` it is `Number`, with a
/// string under `ledger_index` it is `StrValue`, and with anything else, or
/// nothing, under `ledger_index` it is no selector at all.
pub proof fn lemma_selector_variants(j: JsonModel)
    ensures
        required::<Decimal>(j, "ledger_current_index"@) is Ok ==> LedgerIndex::decode(j) is Ok
            && LedgerIndex::decode(j)->Ok_0 is Current,
        required::<Decimal>(j, "ledger_current_index"@) is Err ==> LedgerIndex::decode(j) == (
        match j.member("ledger_index"@) {
            Some(JsonModel::Number(text)) => if is_integer_literal(text) {
                Ok::<LedgerIndexModel, MismatchModel>(
                    LedgerIndexModel::Number { ledger_index: text },
                )
            } else {
                Err(MismatchModel::here())
            },
            Some(JsonModel::Str(text)) => Ok(LedgerIndexModel::StrValue { ledger_index: text }),
            _ => Err(MismatchModel::here()),
        }),
        j.member("ledger_current_index"@) is None && j.member("ledger_index"@) is None
            ==> LedgerIndex::decode(j) == Err::<LedgerIndexModel, MismatchModel>(
            MismatchModel::here(),
        ),
{
}

/// Round trip of a selector through JSON: the object of the member that
/// writes a selector is read as that selector again.
pub proof fn lemma_selector_round_trip(selector: LedgerIndexModel)
    requires
        selector.well_formed(),
    ensures
        LedgerIndex::decode(JsonModel::Object(seq![ledger_index_member(selector)])) == Ok::<
            LedgerIndexModel,
            MismatchModel,
        >(selector),
{
    lemma_selector_keys();
    let members = seq![ledger_index_member(selector)];
    reveal_with_fuel(find_member, 3);
    assert(members[0] == ledger_index_member(selector));
}

} // verus!
