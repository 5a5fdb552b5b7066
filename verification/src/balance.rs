//! Currency amounts: the native unit as a bare decimal, an issued currency as a record.

use vstd::prelude::*;
use crate::codec::{
    get_required, required, scalar_text, FromJson, MismatchModel, ShapeMismatch, ToJson,
};
use crate::decimal::{decimal_parse, Decimal, DecimalParts};
use crate::json::{find_member, members_model, Json, JsonModel, Member, MemberModel};

verus! {

/// A currency amount.
#[derive(Debug)]
pub enum Balance {
    /// An amount of the native unit.
    XRP(Decimal),
    /// An amount of a currency that an account has issued.
    Other { currency: String, issuer: String, value: Decimal },
}

/// Mathematical model of a [`Balance`]; each decimal is the text that writes it.
pub ghost enum BalanceModel {
    XRP(Seq<char>),
    Other { currency: Seq<char>, issuer: Seq<char>, value: Seq<char> },
}

impl DeepView for Balance {
    type V = BalanceModel;

    open spec fn deep_view(&self) -> BalanceModel {
        match self {
            Balance::XRP(amount) => BalanceModel::XRP(amount@),
            Balance::Other { currency, issuer, value } => BalanceModel::Other {
                currency: currency@,
                issuer: issuer@,
                value: value@,
            },
        }
    }
}

/// The JSON value that writes a balance: a string for the native unit, an
/// object of three strings for an issued currency.
pub open spec fn balance_json(balance: BalanceModel) -> JsonModel {
    match balance {
        BalanceModel::XRP(amount) => JsonModel::Str(amount),
        BalanceModel::Other { currency, issuer, value } => JsonModel::Object(
            seq![
                MemberModel { key: "currency"@, value: JsonModel::Str(currency) },
                MemberModel { key: "issuer"@, value: JsonModel::Str(issuer) },
                MemberModel { key: "value"@, value: JsonModel::Str(value) },
            ],
        ),
    }
}

impl FromJson for Balance {
    /// A string or a number is an amount of the native unit, if it writes a
    /// decimal. An object is an amount of an issued currency, if it has the
    /// three members. Nothing else is a balance.
    open spec fn decode(j: JsonModel) -> Result<BalanceModel, MismatchModel> {
        if j.is_scalar() {
            match Decimal::decode(j) {
                Ok(amount) => Ok(BalanceModel::XRP(amount)),
                Err(mismatch) => Err(mismatch),
            }
        } else if j is Object {
            let currency = required::<String>(j, "currency"@);
            let issuer = required::<String>(j, "issuer"@);
            let value = required::<Decimal>(j, "value"@);
            if currency is Err {
                Err(currency->Err_0)
            } else if issuer is Err {
                Err(issuer->Err_0)
            } else if value is Err {
                Err(value->Err_0)
            } else {
                Ok(
                    BalanceModel::Other {
                        currency: currency->Ok_0,
                        issuer: issuer->Ok_0,
                        value: value->Ok_0,
                    },
                )
            }
        } else {
            Err(MismatchModel::here())
        }
    }

    fn from_json(j: &Json) -> (outcome: Result<Balance, ShapeMismatch>) {
        match j {
            Json::Str(_) | Json::Number(_) => {
                let amount = Decimal::from_json(j)?;
                Ok(Balance::XRP(amount))
            },
            Json::Object(_) => {
                let currency: String = get_required(j, "currency")?;
                let issuer: String = get_required(j, "issuer")?;
                let value: Decimal = get_required(j, "value")?;
                Ok(Balance::Other { currency, issuer, value })
            },
            _ => Err(ShapeMismatch::here()),
        }
    }
}

impl ToJson for Balance {
    open spec fn encode(&self) -> JsonModel {
        balance_json(self.deep_view())
    }

    fn to_json(&self) -> (j: Json) {
        match self {
            Balance::XRP(amount) => Json::string(amount.as_str()),
            Balance::Other { currency, issuer, value } => {
                let mut members: Vec<Member> = Vec::new();
                members.push(Member::new("currency", Json::string(currency.as_str())));
                members.push(Member::new("issuer", Json::string(issuer.as_str())));
                members.push(Member::new("value", Json::string(value.as_str())));
                proof {
                    assert(members_model(members@) =~= balance_json(self.deep_view())->Object_0);
                }
                Json::object(members)
            },
        }
    }
}

/// The decimal that a string or a number writes.
pub open spec fn scalar_decimal(j: JsonModel) -> Option<DecimalParts> {
    match scalar_text(j) {
        Some(text) => decimal_parse(text),
        None => None,
    }
}

/// Round trip of a balance through JSON. Where a JSON value is read as a
/// balance, the JSON value that writes this balance is read as the same
/// balance again. For the native unit it is a string that writes the same
/// decimal as the value that was read; for an issued currency it is an
/// object with the same currency, the same issuer and a value that writes the
/// same decimal.
pub proof fn lemma_balance_round_trip(j: JsonModel)
    requires
        Balance::decode(j) is Ok,
    ensures
        Balance::decode(balance_json(Balance::decode(j)->Ok_0)) == Balance::decode(j),
        j.is_scalar() ==> balance_json(Balance::decode(j)->Ok_0) is Str && scalar_decimal(
            balance_json(Balance::decode(j)->Ok_0),
        ) == scalar_decimal(j),
        j is Object ==> {
            let written = balance_json(Balance::decode(j)->Ok_0);
            &&& required::<String>(written, "currency"@) == required::<String>(j, "currency"@)
            &&& required::<String>(written, "issuer"@) == required::<String>(j, "issuer"@)
            &&& written.member("value"@) is Some
            &&& j.member("value"@) is Some
            &&& scalar_decimal(written.member("value"@)->Some_0) == scalar_decimal(
                j.member("value"@)->Some_0,
            )
        },
{
    reveal_strlit("currency");
    reveal_strlit("issuer");
    reveal_strlit("value");
    let written = balance_json(Balance::decode(j)->Ok_0);
    if j is Object {
        let members = written->Object_0;
        assert(members[0].key == "currency"@);
        assert(members[1].key == "issuer"@);
        assert(members[2].key == "value"@);
        reveal_with_fuel(find_member, 4);
        assert(written.member("currency"@) == Some(members[0].value));
        assert(written.member("issuer"@) == Some(members[1].value));
        assert(written.member("value"@) == Some(members[2].value));
    }
}

} // verus!
