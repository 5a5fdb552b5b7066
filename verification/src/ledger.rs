//! The reply to `ledger`: the header of a ledger and, where asked for, its
//! transactions with their metadata.

use vstd::prelude::*;
use crate::balance::{Balance, BalanceModel};
use crate::codec::{
    expect_object, get_optional, get_required, optional, required, FromJson,
    MismatchModel, ShapeMismatch,
};
use crate::decimal::Decimal;
use crate::json::{Json, JsonModel};

verus! {

/// One step of a payment path.
#[derive(Debug)]
pub struct PathInfo {
    pub currency: String,
    pub issuer: Option<String>,
    /// Read from the member `type`.
    pub currency_type: Decimal,
    pub type_hex: String,
}

/// Mathematical model of [`PathInfo`].
pub ghost struct PathInfoModel {
    pub currency: Seq<char>,
    pub issuer: Option<Seq<char>>,
    pub currency_type: Seq<char>,
    pub type_hex: Seq<char>,
}

impl DeepView for PathInfo {
    type V = PathInfoModel;

    open spec fn deep_view(&self) -> PathInfoModel {
        PathInfoModel {
            currency: self.currency.deep_view(),
            issuer: self.issuer.deep_view(),
            currency_type: self.currency_type.deep_view(),
            type_hex: self.type_hex.deep_view(),
        }
    }
}

impl FromJson for PathInfo {
    open spec fn decode(j: JsonModel) -> Result<PathInfoModel, MismatchModel> {
        let currency = required::<String>(j, "currency"@);
        let issuer = optional::<String>(j, "issuer"@);
        let currency_type = required::<Decimal>(j, "type"@);
        let type_hex = required::<String>(j, "type_hex"@);
        if !(j is Object) {
            Err(MismatchModel::here())
        } else if currency is Err {
            Err(currency->Err_0)
        } else if issuer is Err {
            Err(issuer->Err_0)
        } else if currency_type is Err {
            Err(currency_type->Err_0)
        } else if type_hex is Err {
            Err(type_hex->Err_0)
        } else {
            Ok(
                PathInfoModel {
                    currency: currency->Ok_0,
                    issuer: issuer->Ok_0,
                    currency_type: currency_type->Ok_0,
                    type_hex: type_hex->Ok_0,
                },
            )
        }
    }

    fn from_json(j: &Json) -> (outcome: Result<PathInfo, ShapeMismatch>) {
        expect_object(j)?;
        let currency: String = get_required(j, "currency")?;
        let issuer: Option<String> = get_optional(j, "issuer")?;
        let currency_type: Decimal = get_required(j, "type")?;
        let type_hex: String = get_required(j, "type_hex")?;
        Ok(
            PathInfo {
                currency,
                issuer,
                currency_type,
                type_hex,
            },
        )
    }
}

/// The members of a ledger entry after a transaction.
#[derive(Debug)]
pub struct FinalFieldInfo {
    pub Account: Option<String>,
    pub Balance: Option<Balance>,
    pub Flags: isize,
    pub OwnerCount: Option<Decimal>,
    pub Sequence: Option<Decimal>,
}

/// Mathematical model of [`FinalFieldInfo`].
pub ghost struct FinalFieldInfoModel {
    pub Account: Option<Seq<char>>,
    pub Balance: Option<BalanceModel>,
    pub Flags: isize,
    pub OwnerCount: Option<Seq<char>>,
    pub Sequence: Option<Seq<char>>,
}

impl DeepView for FinalFieldInfo {
    type V = FinalFieldInfoModel;

    open spec fn deep_view(&self) -> FinalFieldInfoModel {
        FinalFieldInfoModel {
            Account: self.Account.deep_view(),
            Balance: self.Balance.deep_view(),
            Flags: self.Flags.deep_view(),
            OwnerCount: self.OwnerCount.deep_view(),
            Sequence: self.Sequence.deep_view(),
        }
    }
}

impl FromJson for FinalFieldInfo {
    open spec fn decode(j: JsonModel) -> Result<FinalFieldInfoModel, MismatchModel> {
        let account = optional::<String>(j, "Account"@);
        let balance = optional::<Balance>(j, "Balance"@);
        let flags = required::<isize>(j, "Flags"@);
        let owner_count = optional::<Decimal>(j, "OwnerCount"@);
        let sequence = optional::<Decimal>(j, "Sequence"@);
        if !(j is Object) {
            Err(MismatchModel::here())
        } else if account is Err {
            Err(account->Err_0)
        } else if balance is Err {
            Err(balance->Err_0)
        } else if flags is Err {
            Err(flags->Err_0)
        } else if owner_count is Err {
            Err(owner_count->Err_0)
        } else if sequence is Err {
            Err(sequence->Err_0)
        } else {
            Ok(
                FinalFieldInfoModel {
                    Account: account->Ok_0,
                    Balance: balance->Ok_0,
                    Flags: flags->Ok_0,
                    OwnerCount: owner_count->Ok_0,
                    Sequence: sequence->Ok_0,
                },
            )
        }
    }

    fn from_json(j: &Json) -> (outcome: Result<FinalFieldInfo, ShapeMismatch>) {
        expect_object(j)?;
        let account: Option<String> = get_optional(j, "Account")?;
        let balance: Option<Balance> = get_optional(j, "Balance")?;
        let flags: isize = get_required(j, "Flags")?;
        let owner_count: Option<Decimal> = get_optional(j, "OwnerCount")?;
        let sequence: Option<Decimal> = get_optional(j, "Sequence")?;
        Ok(
            FinalFieldInfo {
                Account: account,
                Balance: balance,
                Flags: flags,
                OwnerCount: owner_count,
                Sequence: sequence,
            },
        )
    }
}

/// The members of a ledger entry that a transaction changed, as they were before.
#[derive(Debug)]
pub struct PreviousFieldInfo {
    pub Balance: Option<Balance>,
    pub Sequence: Option<Decimal>,
}

/// Mathematical model of [`PreviousFieldInfo`].
pub ghost struct PreviousFieldInfoModel {
    pub Balance: Option<BalanceModel>,
    pub Sequence: Option<Seq<char>>,
}

impl DeepView for PreviousFieldInfo {
    type V = PreviousFieldInfoModel;

    open spec fn deep_view(&self) -> PreviousFieldInfoModel {
        PreviousFieldInfoModel {
            Balance: self.Balance.deep_view(),
            Sequence: self.Sequence.deep_view(),
        }
    }
}

impl FromJson for PreviousFieldInfo {
    open spec fn decode(j: JsonModel) -> Result<PreviousFieldInfoModel, MismatchModel> {
        let balance = optional::<Balance>(j, "Balance"@);
        let sequence = optional::<Decimal>(j, "Sequence"@);
        if !(j is Object) {
            Err(MismatchModel::here())
        } else if balance is Err {
            Err(balance->Err_0)
        } else if sequence is Err {
            Err(sequence->Err_0)
        } else {
            Ok(
                PreviousFieldInfoModel {
                    Balance: balance->Ok_0,
                    Sequence: sequence->Ok_0,
                },
            )
        }
    }

    fn from_json(j: &Json) -> (outcome: Result<PreviousFieldInfo, ShapeMismatch>) {
        expect_object(j)?;
        let balance: Option<Balance> = get_optional(j, "Balance")?;
        let sequence: Option<Decimal> = get_optional(j, "Sequence")?;
        Ok(
            PreviousFieldInfo {
                Balance: balance,
                Sequence: sequence,
            },
        )
    }
}

/// A ledger entry that a transaction changed.
#[derive(Debug)]
pub struct ModifiedNodeInfo {
    pub FinalFields: FinalFieldInfo,
    /// Not every kind of transaction comes with these.
    pub PreviousFields: Option<PreviousFieldInfo>,
    pub LedgerEntryType: String,
    pub LedgerIndex: String,
    pub PreviousTxnID: Option<String>,
    pub PreviousTxnLgrSeq: Option<Decimal>,
}

/// Mathematical model of [`ModifiedNodeInfo`].
pub ghost struct ModifiedNodeInfoModel {
    pub FinalFields: FinalFieldInfoModel,
    pub PreviousFields: Option<PreviousFieldInfoModel>,
    pub LedgerEntryType: Seq<char>,
    pub LedgerIndex: Seq<char>,
    pub PreviousTxnID: Option<Seq<char>>,
    pub PreviousTxnLgrSeq: Option<Seq<char>>,
}

impl DeepView for ModifiedNodeInfo {
    type V = ModifiedNodeInfoModel;

    open spec fn deep_view(&self) -> ModifiedNodeInfoModel {
        ModifiedNodeInfoModel {
            FinalFields: self.FinalFields.deep_view(),
            PreviousFields: self.PreviousFields.deep_view(),
            LedgerEntryType: self.LedgerEntryType.deep_view(),
            LedgerIndex: self.LedgerIndex.deep_view(),
            PreviousTxnID: self.PreviousTxnID.deep_view(),
            PreviousTxnLgrSeq: self.PreviousTxnLgrSeq.deep_view(),
        }
    }
}

impl FromJson for ModifiedNodeInfo {
    open spec fn decode(j: JsonModel) -> Result<ModifiedNodeInfoModel, MismatchModel> {
        let final_fields = required::<FinalFieldInfo>(j, "FinalFields"@);
        let previous_fields = optional::<PreviousFieldInfo>(j, "PreviousFields"@);
        let ledger_entry_type = required::<String>(j, "LedgerEntryType"@);
        let ledger_index = required::<String>(j, "LedgerIndex"@);
        let previous_txn_id = optional::<String>(j, "PreviousTxnID"@);
        let previous_txn_lgr_seq = optional::<Decimal>(j, "PreviousTxnLgrSeq"@);
        if !(j is Object) {
            Err(MismatchModel::here())
        } else if final_fields is Err {
            Err(final_fields->Err_0)
        } else if previous_fields is Err {
            Err(previous_fields->Err_0)
        } else if ledger_entry_type is Err {
            Err(ledger_entry_type->Err_0)
        } else if ledger_index is Err {
            Err(ledger_index->Err_0)
        } else if previous_txn_id is Err {
            Err(previous_txn_id->Err_0)
        } else if previous_txn_lgr_seq is Err {
            Err(previous_txn_lgr_seq->Err_0)
        } else {
            Ok(
                ModifiedNodeInfoModel {
                    FinalFields: final_fields->Ok_0,
                    PreviousFields: previous_fields->Ok_0,
                    LedgerEntryType: ledger_entry_type->Ok_0,
                    LedgerIndex: ledger_index->Ok_0,
                    PreviousTxnID: previous_txn_id->Ok_0,
                    PreviousTxnLgrSeq: previous_txn_lgr_seq->Ok_0,
                },
            )
        }
    }

    fn from_json(j: &Json) -> (outcome: Result<ModifiedNodeInfo, ShapeMismatch>) {
        expect_object(j)?;
        let final_fields: FinalFieldInfo = get_required(j, "FinalFields")?;
        let previous_fields: Option<PreviousFieldInfo> = get_optional(j, "PreviousFields")?;
        let ledger_entry_type: String = get_required(j, "LedgerEntryType")?;
        let ledger_index: String = get_required(j, "LedgerIndex")?;
        let previous_txn_id: Option<String> = get_optional(j, "PreviousTxnID")?;
        let previous_txn_lgr_seq: Option<Decimal> = get_optional(j, "PreviousTxnLgrSeq")?;
        Ok(
            ModifiedNodeInfo {
                FinalFields: final_fields,
                PreviousFields: previous_fields,
                LedgerEntryType: ledger_entry_type,
                LedgerIndex: ledger_index,
                PreviousTxnID: previous_txn_id,
                PreviousTxnLgrSeq: previous_txn_lgr_seq,
            },
        )
    }
}

/// A ledger entry that a transaction touched; only a changed entry is read.
#[derive(Debug)]
pub struct AffectedNodeInfo {
    pub ModifiedNode: Option<ModifiedNodeInfo>,
}

/// Mathematical model of [`AffectedNodeInfo`].
pub ghost struct AffectedNodeInfoModel {
    pub ModifiedNode: Option<ModifiedNodeInfoModel>,
}

impl DeepView for AffectedNodeInfo {
    type V = AffectedNodeInfoModel;

    open spec fn deep_view(&self) -> AffectedNodeInfoModel {
        AffectedNodeInfoModel {
            ModifiedNode: self.ModifiedNode.deep_view(),
        }
    }
}

impl FromJson for AffectedNodeInfo {
    open spec fn decode(j: JsonModel) -> Result<AffectedNodeInfoModel, MismatchModel> {
        let modified_node = optional::<ModifiedNodeInfo>(j, "ModifiedNode"@);
        if !(j is Object) {
            Err(MismatchModel::here())
        } else if modified_node is Err {
            Err(modified_node->Err_0)
        } else {
            Ok(
                AffectedNodeInfoModel {
                    ModifiedNode: modified_node->Ok_0,
                },
            )
        }
    }

    fn from_json(j: &Json) -> (outcome: Result<AffectedNodeInfo, ShapeMismatch>) {
        expect_object(j)?;
        let modified_node: Option<ModifiedNodeInfo> = get_optional(j, "ModifiedNode")?;
        Ok(
            AffectedNodeInfo {
                ModifiedNode: modified_node,
            },
        )
    }
}

/// The metadata of a transaction: what it did to the ledger.
#[derive(Debug)]
pub struct MetaTxInfo {
    pub AffectedNodes: Vec<AffectedNodeInfo>,
    pub TransactionIndex: Decimal,
    pub TransactionResult: String,
}

/// Mathematical model of [`MetaTxInfo`].
pub ghost struct MetaTxInfoModel {
    pub AffectedNodes: Seq<AffectedNodeInfoModel>,
    pub TransactionIndex: Seq<char>,
    pub TransactionResult: Seq<char>,
}

impl DeepView for MetaTxInfo {
    type V = MetaTxInfoModel;

    open spec fn deep_view(&self) -> MetaTxInfoModel {
        MetaTxInfoModel {
            AffectedNodes: self.AffectedNodes.deep_view(),
            TransactionIndex: self.TransactionIndex.deep_view(),
            TransactionResult: self.TransactionResult.deep_view(),
        }
    }
}

impl FromJson for MetaTxInfo {
    open spec fn decode(j: JsonModel) -> Result<MetaTxInfoModel, MismatchModel> {
        let affected_nodes = required::<Vec<AffectedNodeInfo>>(j, "AffectedNodes"@);
        let transaction_index = required::<Decimal>(j, "TransactionIndex"@);
        let transaction_result = required::<String>(j, "TransactionResult"@);
        if !(j is Object) {
            Err(MismatchModel::here())
        } else if affected_nodes is Err {
            Err(affected_nodes->Err_0)
        } else if transaction_index is Err {
            Err(transaction_index->Err_0)
        } else if transaction_result is Err {
            Err(transaction_result->Err_0)
        } else {
            Ok(
                MetaTxInfoModel {
                    AffectedNodes: affected_nodes->Ok_0,
                    TransactionIndex: transaction_index->Ok_0,
                    TransactionResult: transaction_result->Ok_0,
                },
            )
        }
    }

    fn from_json(j: &Json) -> (outcome: Result<MetaTxInfo, ShapeMismatch>) {
        expect_object(j)?;
        let affected_nodes: Vec<AffectedNodeInfo> = get_required(j, "AffectedNodes")?;
        let transaction_index: Decimal = get_required(j, "TransactionIndex")?;
        let transaction_result: String = get_required(j, "TransactionResult")?;
        Ok(
            MetaTxInfo {
                AffectedNodes: affected_nodes,
                TransactionIndex: transaction_index,
                TransactionResult: transaction_result,
            },
        )
    }
}

/// A transaction in a ledger.
#[derive(Debug)]
pub struct TransactionInfo {
    pub Account: String,
    pub Amount: Option<Balance>,
    pub Destination: Option<String>,
    pub Fee: Decimal,
    pub Flags: isize,
    pub Paths: Option<Vec<Vec<PathInfo>>>,
    pub SendMax: Option<Balance>,
    pub Sequence: Decimal,
    pub SigningPubKey: String,
    pub TransactionType: String,
    pub TxnSignature: String,
    pub hash: String,
    pub LedgerIndex: Option<String>,
    pub metaData: MetaTxInfo,
    pub validated: Option<bool>,
}

/// Mathematical model of [`TransactionInfo`].
pub ghost struct TransactionInfoModel {
    pub Account: Seq<char>,
    pub Amount: Option<BalanceModel>,
    pub Destination: Option<Seq<char>>,
    pub Fee: Seq<char>,
    pub Flags: isize,
    pub Paths: Option<Seq<Seq<PathInfoModel>>>,
    pub SendMax: Option<BalanceModel>,
    pub Sequence: Seq<char>,
    pub SigningPubKey: Seq<char>,
    pub TransactionType: Seq<char>,
    pub TxnSignature: Seq<char>,
    pub hash: Seq<char>,
    pub LedgerIndex: Option<Seq<char>>,
    pub metaData: MetaTxInfoModel,
    pub validated: Option<bool>,
}

impl DeepView for TransactionInfo {
    type V = TransactionInfoModel;

    open spec fn deep_view(&self) -> TransactionInfoModel {
        TransactionInfoModel {
            Account: self.Account.deep_view(),
            Amount: self.Amount.deep_view(),
            Destination: self.Destination.deep_view(),
            Fee: self.Fee.deep_view(),
            Flags: self.Flags.deep_view(),
            Paths: self.Paths.deep_view(),
            SendMax: self.SendMax.deep_view(),
            Sequence: self.Sequence.deep_view(),
            SigningPubKey: self.SigningPubKey.deep_view(),
            TransactionType: self.TransactionType.deep_view(),
            TxnSignature: self.TxnSignature.deep_view(),
            hash: self.hash.deep_view(),
            LedgerIndex: self.LedgerIndex.deep_view(),
            metaData: self.metaData.deep_view(),
            validated: self.validated.deep_view(),
        }
    }
}

impl FromJson for TransactionInfo {
    open spec fn decode(j: JsonModel) -> Result<TransactionInfoModel, MismatchModel> {
        let account = required::<String>(j, "Account"@);
        let amount = optional::<Balance>(j, "Amount"@);
        let destination = optional::<String>(j, "Destination"@);
        let fee = required::<Decimal>(j, "Fee"@);
        let flags = required::<isize>(j, "Flags"@);
        let paths = optional::<Vec<Vec<PathInfo>>>(j, "Paths"@);
        let send_max = optional::<Balance>(j, "SendMax"@);
        let sequence = required::<Decimal>(j, "Sequence"@);
        let signing_pub_key = required::<String>(j, "SigningPubKey"@);
        let transaction_type = required::<String>(j, "TransactionType"@);
        let txn_signature = required::<String>(j, "TxnSignature"@);
        let hash = required::<String>(j, "hash"@);
        let ledger_index = optional::<String>(j, "LedgerIndex"@);
        let meta_data = required::<MetaTxInfo>(j, "metaData"@);
        let validated = optional::<bool>(j, "validated"@);
        if !(j is Object) {
            Err(MismatchModel::here())
        } else if account is Err {
            Err(account->Err_0)
        } else if amount is Err {
            Err(amount->Err_0)
        } else if destination is Err {
            Err(destination->Err_0)
        } else if fee is Err {
            Err(fee->Err_0)
        } else if flags is Err {
            Err(flags->Err_0)
        } else if paths is Err {
            Err(paths->Err_0)
        } else if send_max is Err {
            Err(send_max->Err_0)
        } else if sequence is Err {
            Err(sequence->Err_0)
        } else if signing_pub_key is Err {
            Err(signing_pub_key->Err_0)
        } else if transaction_type is Err {
            Err(transaction_type->Err_0)
        } else if txn_signature is Err {
            Err(txn_signature->Err_0)
        } else if hash is Err {
            Err(hash->Err_0)
        } else if ledger_index is Err {
            Err(ledger_index->Err_0)
        } else if meta_data is Err {
            Err(meta_data->Err_0)
        } else if validated is Err {
            Err(validated->Err_0)
        } else {
            Ok(
                TransactionInfoModel {
                    Account: account->Ok_0,
                    Amount: amount->Ok_0,
                    Destination: destination->Ok_0,
                    Fee: fee->Ok_0,
                    Flags: flags->Ok_0,
                    Paths: paths->Ok_0,
                    SendMax: send_max->Ok_0,
                    Sequence: sequence->Ok_0,
                    SigningPubKey: signing_pub_key->Ok_0,
                    TransactionType: transaction_type->Ok_0,
                    TxnSignature: txn_signature->Ok_0,
                    hash: hash->Ok_0,
                    LedgerIndex: ledger_index->Ok_0,
                    metaData: meta_data->Ok_0,
                    validated: validated->Ok_0,
                },
            )
        }
    }

    fn from_json(j: &Json) -> (outcome: Result<TransactionInfo, ShapeMismatch>) {
        expect_object(j)?;
        let account: String = get_required(j, "Account")?;
        let amount: Option<Balance> = get_optional(j, "Amount")?;
        let destination: Option<String> = get_optional(j, "Destination")?;
        let fee: Decimal = get_required(j, "Fee")?;
        let flags: isize = get_required(j, "Flags")?;
        let paths: Option<Vec<Vec<PathInfo>>> = get_optional(j, "Paths")?;
        let send_max: Option<Balance> = get_optional(j, "SendMax")?;
        let sequence: Decimal = get_required(j, "Sequence")?;
        let signing_pub_key: String = get_required(j, "SigningPubKey")?;
        let transaction_type: String = get_required(j, "TransactionType")?;
        let txn_signature: String = get_required(j, "TxnSignature")?;
        let hash: String = get_required(j, "hash")?;
        let ledger_index: Option<String> = get_optional(j, "LedgerIndex")?;
        let meta_data: MetaTxInfo = get_required(j, "metaData")?;
        let validated: Option<bool> = get_optional(j, "validated")?;
        Ok(
            TransactionInfo {
                Account: account,
                Amount: amount,
                Destination: destination,
                Fee: fee,
                Flags: flags,
                Paths: paths,
                SendMax: send_max,
                Sequence: sequence,
                SigningPubKey: signing_pub_key,
                TransactionType: transaction_type,
                TxnSignature: txn_signature,
                hash,
                LedgerIndex: ledger_index,
                metaData: meta_data,
                validated,
            },
        )
    }
}

/// The header of a ledger.
///
/// The node writes the sum of all coins twice, under `totalCoins` and under
/// `total_coins`; both are kept, the first as the string it is, the second as
/// a decimal.
#[derive(Debug)]
pub struct NestedLedgerInfo {
    pub accepted: bool,
    pub account_hash: String,
    pub close_flags: isize,
    pub close_time: Decimal,
    pub close_time_human: String,
    pub close_time_resolution: Decimal,
    pub closed: bool,
    pub hash: String,
    pub ledger_hash: String,
    pub ledger_index: String,
    pub parent_close_time: Decimal,
    pub parent_hash: String,
    pub seqNum: String,
    pub totalCoins: String,
    pub total_coins: Decimal,
    pub transaction_hash: String,
    pub transactions: Option<Vec<TransactionInfo>>,
}

/// Mathematical model of [`NestedLedgerInfo`].
pub ghost struct NestedLedgerInfoModel {
    pub accepted: bool,
    pub account_hash: Seq<char>,
    pub close_flags: isize,
    pub close_time: Seq<char>,
    pub close_time_human: Seq<char>,
    pub close_time_resolution: Seq<char>,
    pub closed: bool,
    pub hash: Seq<char>,
    pub ledger_hash: Seq<char>,
    pub ledger_index: Seq<char>,
    pub parent_close_time: Seq<char>,
    pub parent_hash: Seq<char>,
    pub seqNum: Seq<char>,
    pub totalCoins: Seq<char>,
    pub total_coins: Seq<char>,
    pub transaction_hash: Seq<char>,
    pub transactions: Option<Seq<TransactionInfoModel>>,
}

impl DeepView for NestedLedgerInfo {
    type V = NestedLedgerInfoModel;

    open spec fn deep_view(&self) -> NestedLedgerInfoModel {
        NestedLedgerInfoModel {
            accepted: self.accepted.deep_view(),
            account_hash: self.account_hash.deep_view(),
            close_flags: self.close_flags.deep_view(),
            close_time: self.close_time.deep_view(),
            close_time_human: self.close_time_human.deep_view(),
            close_time_resolution: self.close_time_resolution.deep_view(),
            closed: self.closed.deep_view(),
            hash: self.hash.deep_view(),
            ledger_hash: self.ledger_hash.deep_view(),
            ledger_index: self.ledger_index.deep_view(),
            parent_close_time: self.parent_close_time.deep_view(),
            parent_hash: self.parent_hash.deep_view(),
            seqNum: self.seqNum.deep_view(),
            totalCoins: self.totalCoins.deep_view(),
            total_coins: self.total_coins.deep_view(),
            transaction_hash: self.transaction_hash.deep_view(),
            transactions: self.transactions.deep_view(),
        }
    }
}

impl FromJson for NestedLedgerInfo {
    open spec fn decode(j: JsonModel) -> Result<NestedLedgerInfoModel, MismatchModel> {
        let accepted = required::<bool>(j, "accepted"@);
        let account_hash = required::<String>(j, "account_hash"@);
        let close_flags = required::<isize>(j, "close_flags"@);
        let close_time = required::<Decimal>(j, "close_time"@);
        let close_time_human = required::<String>(j, "close_time_human"@);
        let close_time_resolution = required::<Decimal>(j, "close_time_resolution"@);
        let closed = required::<bool>(j, "closed"@);
        let hash = required::<String>(j, "hash"@);
        let ledger_hash = required::<String>(j, "ledger_hash"@);
        let ledger_index = required::<String>(j, "ledger_index"@);
        let parent_close_time = required::<Decimal>(j, "parent_close_time"@);
        let parent_hash = required::<String>(j, "parent_hash"@);
        let seq_num = required::<String>(j, "seqNum"@);
        let total_coins_text = required::<String>(j, "totalCoins"@);
        let total_coins = required::<Decimal>(j, "total_coins"@);
        let transaction_hash = required::<String>(j, "transaction_hash"@);
        let transactions = optional::<Vec<TransactionInfo>>(j, "transactions"@);
        if !(j is Object) {
            Err(MismatchModel::here())
        } else if accepted is Err {
            Err(accepted->Err_0)
        } else if account_hash is Err {
            Err(account_hash->Err_0)
        } else if close_flags is Err {
            Err(close_flags->Err_0)
        } else if close_time is Err {
            Err(close_time->Err_0)
        } else if close_time_human is Err {
            Err(close_time_human->Err_0)
        } else if close_time_resolution is Err {
            Err(close_time_resolution->Err_0)
        } else if closed is Err {
            Err(closed->Err_0)
        } else if hash is Err {
            Err(hash->Err_0)
        } else if ledger_hash is Err {
            Err(ledger_hash->Err_0)
        } else if ledger_index is Err {
            Err(ledger_index->Err_0)
        } else if parent_close_time is Err {
            Err(parent_close_time->Err_0)
        } else if parent_hash is Err {
            Err(parent_hash->Err_0)
        } else if seq_num is Err {
            Err(seq_num->Err_0)
        } else if total_coins_text is Err {
            Err(total_coins_text->Err_0)
        } else if total_coins is Err {
            Err(total_coins->Err_0)
        } else if transaction_hash is Err {
            Err(transaction_hash->Err_0)
        } else if transactions is Err {
            Err(transactions->Err_0)
        } else {
            Ok(
                NestedLedgerInfoModel {
                    accepted: accepted->Ok_0,
                    account_hash: account_hash->Ok_0,
                    close_flags: close_flags->Ok_0,
                    close_time: close_time->Ok_0,
                    close_time_human: close_time_human->Ok_0,
                    close_time_resolution: close_time_resolution->Ok_0,
                    closed: closed->Ok_0,
                    hash: hash->Ok_0,
                    ledger_hash: ledger_hash->Ok_0,
                    ledger_index: ledger_index->Ok_0,
                    parent_close_time: parent_close_time->Ok_0,
                    parent_hash: parent_hash->Ok_0,
                    seqNum: seq_num->Ok_0,
                    totalCoins: total_coins_text->Ok_0,
                    total_coins: total_coins->Ok_0,
                    transaction_hash: transaction_hash->Ok_0,
                    transactions: transactions->Ok_0,
                },
            )
        }
    }

    fn from_json(j: &Json) -> (outcome: Result<NestedLedgerInfo, ShapeMismatch>) {
        expect_object(j)?;
        let accepted: bool = get_required(j, "accepted")?;
        let account_hash: String = get_required(j, "account_hash")?;
        let close_flags: isize = get_required(j, "close_flags")?;
        let close_time: Decimal = get_required(j, "close_time")?;
        let close_time_human: String = get_required(j, "close_time_human")?;
        let close_time_resolution: Decimal = get_required(j, "close_time_resolution")?;
        let closed: bool = get_required(j, "closed")?;
        let hash: String = get_required(j, "hash")?;
        let ledger_hash: String = get_required(j, "ledger_hash")?;
        let ledger_index: String = get_required(j, "ledger_index")?;
        let parent_close_time: Decimal = get_required(j, "parent_close_time")?;
        let parent_hash: String = get_required(j, "parent_hash")?;
        let seq_num: String = get_required(j, "seqNum")?;
        let total_coins_text: String = get_required(j, "totalCoins")?;
        let total_coins: Decimal = get_required(j, "total_coins")?;
        let transaction_hash: String = get_required(j, "transaction_hash")?;
        let transactions: Option<Vec<TransactionInfo>> = get_optional(j, "transactions")?;
        Ok(
            NestedLedgerInfo {
                accepted,
                account_hash,
                close_flags,
                close_time,
                close_time_human,
                close_time_resolution,
                closed,
                hash,
                ledger_hash,
                ledger_index,
                parent_close_time,
                parent_hash,
                seqNum: seq_num,
                totalCoins: total_coins_text,
                total_coins,
                transaction_hash,
                transactions,
            },
        )
    }
}

/// The result of `ledger`.
#[derive(Debug)]
pub struct LedgerInfo {
    pub ledger: NestedLedgerInfo,
    pub ledger_hash: String,
    pub ledger_index: Decimal,
    pub transactions: Option<Vec<TransactionInfo>>,
    pub status: String,
    pub validated: bool,
}

/// Mathematical model of [`LedgerInfo`].
pub ghost struct LedgerInfoModel {
    pub ledger: NestedLedgerInfoModel,
    pub ledger_hash: Seq<char>,
    pub ledger_index: Seq<char>,
    pub transactions: Option<Seq<TransactionInfoModel>>,
    pub status: Seq<char>,
    pub validated: bool,
}

impl DeepView for LedgerInfo {
    type V = LedgerInfoModel;

    open spec fn deep_view(&self) -> LedgerInfoModel {
        LedgerInfoModel {
            ledger: self.ledger.deep_view(),
            ledger_hash: self.ledger_hash.deep_view(),
            ledger_index: self.ledger_index.deep_view(),
            transactions: self.transactions.deep_view(),
            status: self.status.deep_view(),
            validated: self.validated.deep_view(),
        }
    }
}

impl FromJson for LedgerInfo {
    open spec fn decode(j: JsonModel) -> Result<LedgerInfoModel, MismatchModel> {
        let ledger = required::<NestedLedgerInfo>(j, "ledger"@);
        let ledger_hash = required::<String>(j, "ledger_hash"@);
        let ledger_index = required::<Decimal>(j, "ledger_index"@);
        let transactions = optional::<Vec<TransactionInfo>>(j, "transactions"@);
        let status = required::<String>(j, "status"@);
        let validated = required::<bool>(j, "validated"@);
        if !(j is Object) {
            Err(MismatchModel::here())
        } else if ledger is Err {
            Err(ledger->Err_0)
        } else if ledger_hash is Err {
            Err(ledger_hash->Err_0)
        } else if ledger_index is Err {
            Err(ledger_index->Err_0)
        } else if transactions is Err {
            Err(transactions->Err_0)
        } else if status is Err {
            Err(status->Err_0)
        } else if validated is Err {
            Err(validated->Err_0)
        } else {
            Ok(
                LedgerInfoModel {
                    ledger: ledger->Ok_0,
                    ledger_hash: ledger_hash->Ok_0,
                    ledger_index: ledger_index->Ok_0,
                    transactions: transactions->Ok_0,
                    status: status->Ok_0,
                    validated: validated->Ok_0,
                },
            )
        }
    }

    fn from_json(j: &Json) -> (outcome: Result<LedgerInfo, ShapeMismatch>) {
        expect_object(j)?;
        let ledger: NestedLedgerInfo = get_required(j, "ledger")?;
        let ledger_hash: String = get_required(j, "ledger_hash")?;
        let ledger_index: Decimal = get_required(j, "ledger_index")?;
        let transactions: Option<Vec<TransactionInfo>> = get_optional(j, "transactions")?;
        let status: String = get_required(j, "status")?;
        let validated: bool = get_required(j, "validated")?;
        Ok(
            LedgerInfo {
                ledger,
                ledger_hash,
                ledger_index,
                transactions,
                status,
                validated,
            },
        )
    }
}
} // verus!
