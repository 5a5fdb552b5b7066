//! The reply to `account_info`: the state of an account and the summary of
//! its queued transactions.

use vstd::prelude::*;
use crate::codec::{
    expect_object, get_optional, get_required, optional, required, FromJson,
    MismatchModel, ShapeMismatch,
};
use crate::decimal::Decimal;
use crate::json::{Json, JsonModel};
use crate::ledger_index::{LedgerIndex, LedgerIndexModel};
use crate::text::text_eq;

verus! {

/// The kind of a ledger entry that holds the state of an account.
#[derive(Clone, Copy, Debug, PartialEq, Eq, Structural)]
pub enum LedgerEntryType {
    AccountRoot,
}

impl DeepView for LedgerEntryType {
    type V = LedgerEntryType;

    open spec fn deep_view(&self) -> LedgerEntryType {
        *self
    }
}

impl FromJson for LedgerEntryType {
    /// The kind is written as the string that holds its name.
    open spec fn decode(j: JsonModel) -> Result<LedgerEntryType, MismatchModel> {
        if j == JsonModel::Str("AccountRoot"@) {
            Ok(LedgerEntryType::AccountRoot)
        } else {
            Err(MismatchModel::here())
        }
    }

    fn from_json(j: &Json) -> (outcome: Result<LedgerEntryType, ShapeMismatch>) {
        match j {
            Json::Str(text) => if text_eq(text.as_str(), "AccountRoot") {
                Ok(LedgerEntryType::AccountRoot)
            } else {
                Err(ShapeMismatch::here())
            },
            _ => Err(ShapeMismatch::here()),
        }
    }
}

/// The account root: what the ledger holds of an account.
///
/// The members keep the names that the node gives them.
#[derive(Debug)]
pub struct AccountData {
    pub Account: String,
    pub Balance: Decimal,
    pub Flags: Decimal,
    pub LedgerEntryType: LedgerEntryType,
    pub OwnerCount: Decimal,
    pub PreviousTxnID: String,
    pub PreviousTxnLgrSeq: Decimal,
    pub Sequence: Decimal,
    pub index: String,
}

/// Mathematical model of [`AccountData`].
pub ghost struct AccountDataModel {
    pub Account: Seq<char>,
    pub Balance: Seq<char>,
    pub Flags: Seq<char>,
    pub LedgerEntryType: LedgerEntryType,
    pub OwnerCount: Seq<char>,
    pub PreviousTxnID: Seq<char>,
    pub PreviousTxnLgrSeq: Seq<char>,
    pub Sequence: Seq<char>,
    pub index: Seq<char>,
}

impl DeepView for AccountData {
    type V = AccountDataModel;

    open spec fn deep_view(&self) -> AccountDataModel {
        AccountDataModel {
            Account: self.Account.deep_view(),
            Balance: self.Balance.deep_view(),
            Flags: self.Flags.deep_view(),
            LedgerEntryType: self.LedgerEntryType.deep_view(),
            OwnerCount: self.OwnerCount.deep_view(),
            PreviousTxnID: self.PreviousTxnID.deep_view(),
            PreviousTxnLgrSeq: self.PreviousTxnLgrSeq.deep_view(),
            Sequence: self.Sequence.deep_view(),
            index: self.index.deep_view(),
        }
    }
}

impl FromJson for AccountData {
    open spec fn decode(j: JsonModel) -> Result<AccountDataModel, MismatchModel> {
        let account = required::<String>(j, "Account"@);
        let balance = required::<Decimal>(j, "Balance"@);
        let flags = required::<Decimal>(j, "Flags"@);
        let ledger_entry_type = required::<LedgerEntryType>(j, "LedgerEntryType"@);
        let owner_count = required::<Decimal>(j, "OwnerCount"@);
        let previous_txn_id = required::<String>(j, "PreviousTxnID"@);
        let previous_txn_lgr_seq = required::<Decimal>(j, "PreviousTxnLgrSeq"@);
        let sequence = required::<Decimal>(j, "Sequence"@);
        let index = required::<String>(j, "index"@);
        if !(j is Object) {
            Err(MismatchModel::here())
        } else if account is Err {
            Err(account->Err_0)
        } else if balance is Err {
            Err(balance->Err_0)
        } else if flags is Err {
            Err(flags->Err_0)
        } else if ledger_entry_type is Err {
            Err(ledger_entry_type->Err_0)
        } else if owner_count is Err {
            Err(owner_count->Err_0)
        } else if previous_txn_id is Err {
            Err(previous_txn_id->Err_0)
        } else if previous_txn_lgr_seq is Err {
            Err(previous_txn_lgr_seq->Err_0)
        } else if sequence is Err {
            Err(sequence->Err_0)
        } else if index is Err {
            Err(index->Err_0)
        } else {
            Ok(
                AccountDataModel {
                    Account: account->Ok_0,
                    Balance: balance->Ok_0,
                    Flags: flags->Ok_0,
                    LedgerEntryType: ledger_entry_type->Ok_0,
                    OwnerCount: owner_count->Ok_0,
                    PreviousTxnID: previous_txn_id->Ok_0,
                    PreviousTxnLgrSeq: previous_txn_lgr_seq->Ok_0,
                    Sequence: sequence->Ok_0,
                    index: index->Ok_0,
                },
            )
        }
    }

    fn from_json(j: &Json) -> (outcome: Result<AccountData, ShapeMismatch>) {
        expect_object(j)?;
        let account: String = get_required(j, "Account")?;
        let balance: Decimal = get_required(j, "Balance")?;
        let flags: Decimal = get_required(j, "Flags")?;
        let ledger_entry_type: LedgerEntryType = get_required(j, "LedgerEntryType")?;
        let owner_count: Decimal = get_required(j, "OwnerCount")?;
        let previous_txn_id: String = get_required(j, "PreviousTxnID")?;
        let previous_txn_lgr_seq: Decimal = get_required(j, "PreviousTxnLgrSeq")?;
        let sequence: Decimal = get_required(j, "Sequence")?;
        let index: String = get_required(j, "index")?;
        Ok(
            AccountData {
                Account: account,
                Balance: balance,
                Flags: flags,
                LedgerEntryType: ledger_entry_type,
                OwnerCount: owner_count,
                PreviousTxnID: previous_txn_id,
                PreviousTxnLgrSeq: previous_txn_lgr_seq,
                Sequence: sequence,
                index,
            },
        )
    }
}

/// One transaction that waits in the queue.
#[derive(Debug)]
pub struct QueuedTransaction {
    pub LastLedgerSequence: Option<Decimal>,
    pub auth_change: bool,
    pub fee: Decimal,
    pub fee_level: Decimal,
    pub max_spend_drops: Decimal,
    pub seq: Decimal,
}

/// Mathematical model of [`QueuedTransaction`].
pub ghost struct QueuedTransactionModel {
    pub LastLedgerSequence: Option<Seq<char>>,
    pub auth_change: bool,
    pub fee: Seq<char>,
    pub fee_level: Seq<char>,
    pub max_spend_drops: Seq<char>,
    pub seq: Seq<char>,
}

impl DeepView for QueuedTransaction {
    type V = QueuedTransactionModel;

    open spec fn deep_view(&self) -> QueuedTransactionModel {
        QueuedTransactionModel {
            LastLedgerSequence: self.LastLedgerSequence.deep_view(),
            auth_change: self.auth_change.deep_view(),
            fee: self.fee.deep_view(),
            fee_level: self.fee_level.deep_view(),
            max_spend_drops: self.max_spend_drops.deep_view(),
            seq: self.seq.deep_view(),
        }
    }
}

impl FromJson for QueuedTransaction {
    open spec fn decode(j: JsonModel) -> Result<QueuedTransactionModel, MismatchModel> {
        let last_ledger_sequence = optional::<Decimal>(j, "LastLedgerSequence"@);
        let auth_change = required::<bool>(j, "auth_change"@);
        let fee = required::<Decimal>(j, "fee"@);
        let fee_level = required::<Decimal>(j, "fee_level"@);
        let max_spend_drops = required::<Decimal>(j, "max_spend_drops"@);
        let seq = required::<Decimal>(j, "seq"@);
        if !(j is Object) {
            Err(MismatchModel::here())
        } else if last_ledger_sequence is Err {
            Err(last_ledger_sequence->Err_0)
        } else if auth_change is Err {
            Err(auth_change->Err_0)
        } else if fee is Err {
            Err(fee->Err_0)
        } else if fee_level is Err {
            Err(fee_level->Err_0)
        } else if max_spend_drops is Err {
            Err(max_spend_drops->Err_0)
        } else if seq is Err {
            Err(seq->Err_0)
        } else {
            Ok(
                QueuedTransactionModel {
                    LastLedgerSequence: last_ledger_sequence->Ok_0,
                    auth_change: auth_change->Ok_0,
                    fee: fee->Ok_0,
                    fee_level: fee_level->Ok_0,
                    max_spend_drops: max_spend_drops->Ok_0,
                    seq: seq->Ok_0,
                },
            )
        }
    }

    fn from_json(j: &Json) -> (outcome: Result<QueuedTransaction, ShapeMismatch>) {
        expect_object(j)?;
        let last_ledger_sequence: Option<Decimal> = get_optional(j, "LastLedgerSequence")?;
        let auth_change: bool = get_required(j, "auth_change")?;
        let fee: Decimal = get_required(j, "fee")?;
        let fee_level: Decimal = get_required(j, "fee_level")?;
        let max_spend_drops: Decimal = get_required(j, "max_spend_drops")?;
        let seq: Decimal = get_required(j, "seq")?;
        Ok(
            QueuedTransaction {
                LastLedgerSequence: last_ledger_sequence,
                auth_change,
                fee,
                fee_level,
                max_spend_drops,
                seq,
            },
        )
    }
}

/// The summary of the whole queue, in which every member is there.
#[derive(Debug)]
pub struct QueueData {
    pub auth_change_queued: bool,
    pub highest_sequence: Decimal,
    pub lowest_sequence: Decimal,
    pub max_spend_drops_total: Decimal,
    pub transactions: Vec<QueuedTransaction>,
    pub txn_count: Decimal,
}

/// Mathematical model of [`QueueData`].
pub ghost struct QueueDataModel {
    pub auth_change_queued: bool,
    pub highest_sequence: Seq<char>,
    pub lowest_sequence: Seq<char>,
    pub max_spend_drops_total: Seq<char>,
    pub transactions: Seq<QueuedTransactionModel>,
    pub txn_count: Seq<char>,
}

impl DeepView for QueueData {
    type V = QueueDataModel;

    open spec fn deep_view(&self) -> QueueDataModel {
        QueueDataModel {
            auth_change_queued: self.auth_change_queued.deep_view(),
            highest_sequence: self.highest_sequence.deep_view(),
            lowest_sequence: self.lowest_sequence.deep_view(),
            max_spend_drops_total: self.max_spend_drops_total.deep_view(),
            transactions: self.transactions.deep_view(),
            txn_count: self.txn_count.deep_view(),
        }
    }
}

impl FromJson for QueueData {
    open spec fn decode(j: JsonModel) -> Result<QueueDataModel, MismatchModel> {
        let auth_change_queued = required::<bool>(j, "auth_change_queued"@);
        let highest_sequence = required::<Decimal>(j, "highest_sequence"@);
        let lowest_sequence = required::<Decimal>(j, "lowest_sequence"@);
        let max_spend_drops_total = required::<Decimal>(j, "max_spend_drops_total"@);
        let transactions = required::<Vec<QueuedTransaction>>(j, "transactions"@);
        let txn_count = required::<Decimal>(j, "txn_count"@);
        if !(j is Object) {
            Err(MismatchModel::here())
        } else if auth_change_queued is Err {
            Err(auth_change_queued->Err_0)
        } else if highest_sequence is Err {
            Err(highest_sequence->Err_0)
        } else if lowest_sequence is Err {
            Err(lowest_sequence->Err_0)
        } else if max_spend_drops_total is Err {
            Err(max_spend_drops_total->Err_0)
        } else if transactions is Err {
            Err(transactions->Err_0)
        } else if txn_count is Err {
            Err(txn_count->Err_0)
        } else {
            Ok(
                QueueDataModel {
                    auth_change_queued: auth_change_queued->Ok_0,
                    highest_sequence: highest_sequence->Ok_0,
                    lowest_sequence: lowest_sequence->Ok_0,
                    max_spend_drops_total: max_spend_drops_total->Ok_0,
                    transactions: transactions->Ok_0,
                    txn_count: txn_count->Ok_0,
                },
            )
        }
    }

    fn from_json(j: &Json) -> (outcome: Result<QueueData, ShapeMismatch>) {
        expect_object(j)?;
        let auth_change_queued: bool = get_required(j, "auth_change_queued")?;
        let highest_sequence: Decimal = get_required(j, "highest_sequence")?;
        let lowest_sequence: Decimal = get_required(j, "lowest_sequence")?;
        let max_spend_drops_total: Decimal = get_required(j, "max_spend_drops_total")?;
        let transactions: Vec<QueuedTransaction> = get_required(j, "transactions")?;
        let txn_count: Decimal = get_required(j, "txn_count")?;
        Ok(
            QueueData {
                auth_change_queued,
                highest_sequence,
                lowest_sequence,
                max_spend_drops_total,
                transactions,
                txn_count,
            },
        )
    }
}

/// The summary of the queue of one account. The node computes its members
/// when it needs them and leaves out those that it has not computed, so each
/// of them may be missing.
#[derive(Debug)]
pub struct LaziedQueueData {
    pub auth_change_queued: Option<bool>,
    pub highest_sequence: Option<Decimal>,
    pub lowest_sequence: Option<Decimal>,
    pub max_spend_drops_total: Option<Decimal>,
    pub transactions: Option<Vec<QueuedTransaction>>,
    pub txn_count: Option<Decimal>,
}

/// Mathematical model of [`LaziedQueueData`].
pub ghost struct LaziedQueueDataModel {
    pub auth_change_queued: Option<bool>,
    pub highest_sequence: Option<Seq<char>>,
    pub lowest_sequence: Option<Seq<char>>,
    pub max_spend_drops_total: Option<Seq<char>>,
    pub transactions: Option<Seq<QueuedTransactionModel>>,
    pub txn_count: Option<Seq<char>>,
}

impl DeepView for LaziedQueueData {
    type V = LaziedQueueDataModel;

    open spec fn deep_view(&self) -> LaziedQueueDataModel {
        LaziedQueueDataModel {
            auth_change_queued: self.auth_change_queued.deep_view(),
            highest_sequence: self.highest_sequence.deep_view(),
            lowest_sequence: self.lowest_sequence.deep_view(),
            max_spend_drops_total: self.max_spend_drops_total.deep_view(),
            transactions: self.transactions.deep_view(),
            txn_count: self.txn_count.deep_view(),
        }
    }
}

impl FromJson for LaziedQueueData {
    open spec fn decode(j: JsonModel) -> Result<LaziedQueueDataModel, MismatchModel> {
        let auth_change_queued = optional::<bool>(j, "auth_change_queued"@);
        let highest_sequence = optional::<Decimal>(j, "highest_sequence"@);
        let lowest_sequence = optional::<Decimal>(j, "lowest_sequence"@);
        let max_spend_drops_total = optional::<Decimal>(j, "max_spend_drops_total"@);
        let transactions = optional::<Vec<QueuedTransaction>>(j, "transactions"@);
        let txn_count = optional::<Decimal>(j, "txn_count"@);
        if !(j is Object) {
            Err(MismatchModel::here())
        } else if auth_change_queued is Err {
            Err(auth_change_queued->Err_0)
        } else if highest_sequence is Err {
            Err(highest_sequence->Err_0)
        } else if lowest_sequence is Err {
            Err(lowest_sequence->Err_0)
        } else if max_spend_drops_total is Err {
            Err(max_spend_drops_total->Err_0)
        } else if transactions is Err {
            Err(transactions->Err_0)
        } else if txn_count is Err {
            Err(txn_count->Err_0)
        } else {
            Ok(
                LaziedQueueDataModel {
                    auth_change_queued: auth_change_queued->Ok_0,
                    highest_sequence: highest_sequence->Ok_0,
                    lowest_sequence: lowest_sequence->Ok_0,
                    max_spend_drops_total: max_spend_drops_total->Ok_0,
                    transactions: transactions->Ok_0,
                    txn_count: txn_count->Ok_0,
                },
            )
        }
    }

    fn from_json(j: &Json) -> (outcome: Result<LaziedQueueData, ShapeMismatch>) {
        expect_object(j)?;
        let auth_change_queued: Option<bool> = get_optional(j, "auth_change_queued")?;
        let highest_sequence: Option<Decimal> = get_optional(j, "highest_sequence")?;
        let lowest_sequence: Option<Decimal> = get_optional(j, "lowest_sequence")?;
        let max_spend_drops_total: Option<Decimal> = get_optional(j, "max_spend_drops_total")?;
        let transactions: Option<Vec<QueuedTransaction>> = get_optional(j, "transactions")?;
        let txn_count: Option<Decimal> = get_optional(j, "txn_count")?;
        Ok(
            LaziedQueueData {
                auth_change_queued,
                highest_sequence,
                lowest_sequence,
                max_spend_drops_total,
                transactions,
                txn_count,
            },
        )
    }
}

/// The result of `account_info`.
#[derive(Debug)]
pub struct AccountInfo {
    pub account_data: AccountData,
    pub queue_data: Option<LaziedQueueData>,
    pub status: String,
    pub validated: Option<bool>,
    /// Read from the members of the result itself, not from an object of its own.
    pub ledger_index: LedgerIndex,
}

/// Mathematical model of [`AccountInfo`].
pub ghost struct AccountInfoModel {
    pub account_data: AccountDataModel,
    pub queue_data: Option<LaziedQueueDataModel>,
    pub status: Seq<char>,
    pub validated: Option<bool>,
    pub ledger_index: LedgerIndexModel,
}

impl DeepView for AccountInfo {
    type V = AccountInfoModel;

    open spec fn deep_view(&self) -> AccountInfoModel {
        AccountInfoModel {
            account_data: self.account_data.deep_view(),
            queue_data: self.queue_data.deep_view(),
            status: self.status.deep_view(),
            validated: self.validated.deep_view(),
            ledger_index: self.ledger_index.deep_view(),
        }
    }
}

impl FromJson for AccountInfo {
    open spec fn decode(j: JsonModel) -> Result<AccountInfoModel, MismatchModel> {
        let account_data = required::<AccountData>(j, "account_data"@);
        let queue_data = optional::<LaziedQueueData>(j, "queue_data"@);
        let status = required::<String>(j, "status"@);
        let validated = optional::<bool>(j, "validated"@);
        let ledger_index = LedgerIndex::decode(j);
        if !(j is Object) {
            Err(MismatchModel::here())
        } else if account_data is Err {
            Err(account_data->Err_0)
        } else if queue_data is Err {
            Err(queue_data->Err_0)
        } else if status is Err {
            Err(status->Err_0)
        } else if validated is Err {
            Err(validated->Err_0)
        } else if ledger_index is Err {
            Err(ledger_index->Err_0)
        } else {
            Ok(
                AccountInfoModel {
                    account_data: account_data->Ok_0,
                    queue_data: queue_data->Ok_0,
                    status: status->Ok_0,
                    validated: validated->Ok_0,
                    ledger_index: ledger_index->Ok_0,
                },
            )
        }
    }

    fn from_json(j: &Json) -> (outcome: Result<AccountInfo, ShapeMismatch>) {
        expect_object(j)?;
        let account_data: AccountData = get_required(j, "account_data")?;
        let queue_data: Option<LaziedQueueData> = get_optional(j, "queue_data")?;
        let status: String = get_required(j, "status")?;
        let validated: Option<bool> = get_optional(j, "validated")?;
        let ledger_index = LedgerIndex::from_json(j)?;
        Ok(
            AccountInfo {
                account_data,
                queue_data,
                status,
                validated,
                ledger_index,
            },
        )
    }
}
/// A result of `account_info` without queue data is read as one whose
/// summary of the queue is absent: the missing member is no mismatch, and
/// no summary is made up for it.
pub proof fn lemma_no_queue_data(j: JsonModel)
    requires
        j.member("queue_data"@) is None,
    ensures
        optional::<LaziedQueueData>(j, "queue_data"@) == Ok::<
            Option<LaziedQueueDataModel>,
            MismatchModel,
        >(None),
        AccountInfo::decode(j) matches Ok(info) ==> info.queue_data is None,
{
}

/// Every member of the summary of an account's queue may be missing: an
/// object without any of them is read as the summary without any member.
pub proof fn lemma_empty_queue_data(j: JsonModel)
    requires
        j is Object,
        j.member("auth_change_queued"@) is None,
        j.member("highest_sequence"@) is None,
        j.member("lowest_sequence"@) is None,
        j.member("max_spend_drops_total"@) is None,
        j.member("transactions"@) is None,
        j.member("txn_count"@) is None,
    ensures
        LaziedQueueData::decode(j) == Ok::<LaziedQueueDataModel, MismatchModel>(
            LaziedQueueDataModel {
                auth_change_queued: None,
                highest_sequence: None,
                lowest_sequence: None,
                max_spend_drops_total: None,
                transactions: None,
                txn_count: None,
            },
        ),
{
}

} // verus!
