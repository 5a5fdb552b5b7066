//! Single calls over JSON-RPC: the envelope of a request, and what a reply
//! means.
//!
//! The exchange with the node is not done here. A call has two halves: the
//! first makes the request that is to be sent, the second takes what came
//! back and makes the typed result of it, or the error.

use vstd::prelude::*;
use crate::account_info::AccountInfo;
use crate::account_tx::AccountTx;
use crate::codec::{get_required, required, FromJson, MismatchModel, ShapeMismatch, ToJson};
use crate::integer::{literal_i64, parse_i64};
use crate::json::{items_model, json_parse, members_model, rendered, Json, JsonModel, Member};
use crate::ledger::LedgerInfo;
use crate::params::{entry, AccountInfoParams, AccountTxParams, LedgerInfoParams};
use crate::text::text_eq;

verus! {

/// Why a call gave no result.
#[derive(Debug, PartialEq, Eq)]
pub enum RpcError {
    /// The exchange with the node failed, or what came back is no JSON
    /// document. `detail` holds what the transport said, or says that the
    /// reply is no JSON document.
    Transport { detail: String },
    /// The node took the request and answered with an error.
    Remote { code: Option<i64>, message: String },
    /// The node answered with a result that does not have the shape of the
    /// type that was asked for; the path starts at the reply.
    Decode(ShapeMismatch),
}

/// Mathematical model of an [`RpcError`].
pub ghost enum RpcErrorModel {
    Transport { detail: Seq<char> },
    Remote { code: Option<i64>, message: Seq<char> },
    Decode(MismatchModel),
}

impl View for RpcError {
    type V = RpcErrorModel;

    open spec fn view(&self) -> RpcErrorModel {
        match self {
            RpcError::Transport { detail } => RpcErrorModel::Transport { detail: detail@ },
            RpcError::Remote { code, message } => RpcErrorModel::Remote {
                code: *code,
                message: message@,
            },
            RpcError::Decode(mismatch) => RpcErrorModel::Decode(mismatch@),
        }
    }
}

/// The model of the outcome of a call.
pub open spec fn outcome<R: DeepView>(result: Result<R, RpcError>) -> Result<R::V, RpcErrorModel> {
    match result {
        Ok(value) => Ok(value.deep_view()),
        Err(error) => Err(error@),
    }
}

/// The envelope of a single request: the name of the method, and the
/// parameters as the one item of an array.
pub open spec fn request_envelope(method: Seq<char>, params: JsonModel) -> JsonModel {
    JsonModel::Object(
        seq![
            entry("method"@, JsonModel::Str(method)),
            entry("params"@, JsonModel::Array(seq![params])),
        ],
    )
}

/// First half of a call: makes the request that is to be sent to the node.
pub fn call_request<P: ToJson>(method: &str, params: &P) -> (request: Json)
    ensures
        request@ == request_envelope(method@, params.encode()),
{
    let mut items: Vec<Json> = Vec::new();
    items.push(params.to_json());
    proof {
        assert(items_model(items@) =~= seq![params.encode()]);
    }
    let mut members: Vec<Member> = Vec::new();
    members.push(Member::new("method", Json::string(method)));
    members.push(Member::new("params", Json::array(items)));
    proof {
        assert(members_model(members@) =~= request_envelope(
            method@,
            params.encode(),
        )->Object_0);
    }
    Json::object(members)
}

/// First half of a call, as the body that is to be sent: the text of the
/// request, where the writer has one for it.
pub fn call_body<P: ToJson>(method: &str, params: &P) -> (body: Option<String>)
    ensures
        body matches Some(text) ==> rendered(request_envelope(method@, params.encode())) == Some(
            text@,
        ),
        body is None ==> rendered(request_envelope(method@, params.encode())) is None,
{
    call_request(method, params).render()
}

/// The integer that an object holds under `key`, if it holds one that fits 64 bits.
pub open spec fn member_integer(j: JsonModel, key: Seq<char>) -> Option<i64> {
    match j.member(key) {
        Some(JsonModel::Number(text)) => literal_i64(text),
        _ => None,
    }
}

/// The text that an object holds under `key`, if it holds a string there.
pub open spec fn member_text(j: JsonModel, key: Seq<char>) -> Option<Seq<char>> {
    match j.member(key) {
        Some(JsonModel::Str(text)) => Some(text),
        _ => None,
    }
}

/// The error that the member `error` of a reply reports: its `code`, and as
/// the message its `message`, or the error itself where it is a string.
pub open spec fn envelope_error(error: JsonModel) -> RpcErrorModel {
    RpcErrorModel::Remote {
        code: member_integer(error, "code"@),
        message: match error {
            JsonModel::Str(text) => text,
            _ => match member_text(error, "message"@) {
                Some(text) => text,
                None => Seq::empty(),
            },
        },
    }
}

/// The error that a result with the status `error` reports: its
/// `error_code`, and as the message its `error_message`, or else its `error`.
pub open spec fn result_error(result: JsonModel) -> RpcErrorModel {
    RpcErrorModel::Remote {
        code: member_integer(result, "error_code"@),
        message: match member_text(result, "error_message"@) {
            Some(text) => text,
            None => match member_text(result, "error"@) {
                Some(text) => text,
                None => Seq::empty(),
            },
        },
    }
}

/// True for a result that says of itself that it is an error.
pub open spec fn has_error_status(result: JsonModel) -> bool {
    result.member("status"@) == Some(JsonModel::Str("error"@))
}

/// The error that a reply reports, if it reports one: it has a member
/// `error` that is not null, or a result with the status `error`.
pub open spec fn remote_error(reply: JsonModel) -> Option<RpcErrorModel> {
    let error = reply.member("error"@);
    let result = reply.member("result"@);
    if error is Some && !(error->Some_0 is Null) {
        Some(envelope_error(error->Some_0))
    } else if result is Some && has_error_status(result->Some_0) {
        Some(result_error(result->Some_0))
    } else {
        None
    }
}

/// What a reply means for a call that asks for a result of type `R`. A reply
/// that reports an error gives that error, whatever else it holds. Any other
/// reply gives what its member `result` holds of `R`, or says where that
/// member, or the reply itself, does not fit.
pub open spec fn reply_outcome<R: FromJson>(reply: JsonModel) -> Result<R::V, RpcErrorModel> {
    if !(reply is Object) {
        Err(RpcErrorModel::Decode(MismatchModel::here()))
    } else if remote_error(reply) is Some {
        Err(remote_error(reply)->Some_0)
    } else {
        match required::<R>(reply, "result"@) {
            Ok(value) => Ok(value),
            Err(mismatch) => Err(RpcErrorModel::Decode(mismatch)),
        }
    }
}

/// What the transport hands back means for a call: its failure is the
/// call's; a body that is no JSON document is a failure of the transport
/// too; any other body is a reply.
pub open spec fn call_outcome<R: FromJson>(exchange: Result<Seq<char>, Seq<char>>) -> Result<
    R::V,
    RpcErrorModel,
> {
    match exchange {
        Err(detail) => Err(RpcErrorModel::Transport { detail }),
        Ok(body) => match json_parse(body) {
            None => Err(RpcErrorModel::Transport { detail: "the reply is not a JSON document"@ }),
            Some(reply) => reply_outcome::<R>(reply),
        },
    }
}

/// The model of what the transport hands back.
pub open spec fn exchange_model(exchange: Result<String, String>) -> Result<Seq<char>, Seq<char>> {
    match exchange {
        Ok(body) => Ok(body@),
        Err(detail) => Err(detail@),
    }
}

fn integer_under(j: &Json, key: &str) -> (found: Option<i64>)
    ensures
        found == member_integer(j@, key@),
{
    match j.get(key) {
        Some(Json::Number(text)) => parse_i64(text.as_str()),
        _ => None,
    }
}

fn text_under(j: &Json, key: &str) -> (found: Option<String>)
    ensures
        found matches Some(text) ==> member_text(j@, key@) == Some(text@),
        found is None ==> member_text(j@, key@) is None,
{
    match j.get(key) {
        Some(Json::Str(text)) => Some(text.clone()),
        _ => None,
    }
}

fn error_status(result: &Json) -> (found: bool)
    ensures
        found == has_error_status(result@),
{
    match result.get("status") {
        Some(Json::Str(text)) => text_eq(text.as_str(), "error"),
        _ => false,
    }
}

/// Finds the error that a reply reports.
pub fn reported_error(reply: &Json) -> (found: Option<RpcError>)
    ensures
        found matches Some(error) ==> remote_error(reply@) == Some(error@),
        found is None ==> remote_error(reply@) is None,
{
    match reply.get("error") {
        None | Some(Json::Null) => {},
        Some(error) => {
            let code = integer_under(error, "code");
            let message = match error {
                Json::Str(text) => text.clone(),
                _ => match text_under(error, "message") {
                    Some(text) => text,
                    None => String::new(),
                },
            };
            return Some(RpcError::Remote { code, message });
        },
    }
    match reply.get("result") {
        None => None,
        Some(result) => {
            if error_status(result) {
                let code = integer_under(result, "error_code");
                let message = match text_under(result, "error_message") {
                    Some(text) => text,
                    None => match text_under(result, "error") {
                        Some(text) => text,
                        None => String::new(),
                    },
                };
                Some(RpcError::Remote { code, message })
            } else {
                None
            }
        },
    }
}

/// Makes the outcome of a call of a reply that is a JSON document.
pub fn decode_reply<R: FromJson>(reply: &Json) -> (result: Result<R, RpcError>)
    ensures
        outcome(result) == reply_outcome::<R>(reply@),
{
    match reply {
        Json::Object(_) => {},
        _ => {
            return Err(RpcError::Decode(ShapeMismatch::here()));
        },
    }
    match reported_error(reply) {
        Some(error) => {
            return Err(error);
        },
        None => {},
    }
    match get_required::<R>(reply, "result") {
        Ok(value) => Ok(value),
        Err(mismatch) => Err(RpcError::Decode(mismatch)),
    }
}

/// Second half of a call: makes the outcome of what the transport handed
/// back, which is the body of the reply, or the words of its failure.
pub fn call_reply<R: FromJson>(exchange: Result<String, String>) -> (result: Result<R, RpcError>)
    ensures
        outcome(result) == call_outcome::<R>(exchange_model(exchange)),
{
    match exchange {
        Err(detail) => Err(RpcError::Transport { detail }),
        Ok(body) => match Json::parse(body.as_str()) {
            None => Err(
                RpcError::Transport { detail: "the reply is not a JSON document".to_owned() },
            ),
            Some(reply) => decode_reply::<R>(&reply),
        },
    }
}

/// The request of `account_info`.
pub fn account_info_request(params: &AccountInfoParams) -> (request: Json)
    ensures
        request@ == request_envelope("account_info"@, params.encode()),
{
    call_request("account_info", params)
}

/// The outcome of `account_info`.
pub fn account_info_reply(exchange: Result<String, String>) -> (result: Result<
    AccountInfo,
    RpcError,
>)
    ensures
        outcome(result) == call_outcome::<AccountInfo>(exchange_model(exchange)),
{
    call_reply::<AccountInfo>(exchange)
}

/// The request of `account_tx`.
pub fn account_tx_request(params: &AccountTxParams) -> (request: Json)
    ensures
        request@ == request_envelope("account_tx"@, params.encode()),
{
    call_request("account_tx", params)
}

/// The outcome of `account_tx`.
pub fn account_tx_reply(exchange: Result<String, String>) -> (result: Result<AccountTx, RpcError>)
    ensures
        outcome(result) == call_outcome::<AccountTx>(exchange_model(exchange)),
{
    call_reply::<AccountTx>(exchange)
}

/// The request of `ledger`.
pub fn ledger_request(params: &LedgerInfoParams) -> (request: Json)
    ensures
        request@ == request_envelope("ledger"@, params.encode()),
{
    call_request("ledger", params)
}

/// The outcome of `ledger`.
pub fn ledger_reply(exchange: Result<String, String>) -> (result: Result<LedgerInfo, RpcError>)
    ensures
        outcome(result) == call_outcome::<LedgerInfo>(exchange_model(exchange)),
{
    call_reply::<LedgerInfo>(exchange)
}

/// A reply with a member `error` that is not null gives an error of the
/// node, whatever type was asked for and whatever the reply holds as its
/// result: the result is not looked at.
pub proof fn lemma_error_envelope<R: FromJson>(reply: JsonModel)
    requires
        reply.member("error"@) is Some,
        !(reply.member("error"@)->Some_0 is Null),
    ensures
        reply_outcome::<R>(reply) == Err::<R::V, RpcErrorModel>(
            envelope_error(reply.member("error"@)->Some_0),
        ),
        reply_outcome::<R>(reply)->Err_0 is Remote,
{
}

/// A reply that reports no error and whose result does not fit the type
/// that was asked for, be it for one missing member, gives a decoding
/// error and no value.
pub proof fn lemma_unfit_result<R: FromJson>(reply: JsonModel)
    requires
        reply is Object,
        remote_error(reply) is None,
        required::<R>(reply, "result"@) is Err,
    ensures
        reply_outcome::<R>(reply) == Err::<R::V, RpcErrorModel>(
            RpcErrorModel::Decode(required::<R>(reply, "result"@)->Err_0),
        ),
{
}

} // verus!
