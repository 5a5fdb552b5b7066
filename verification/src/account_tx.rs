//! The reply to `account_tx`: a page of the transactions of an account.

use vstd::prelude::*;
use crate::account::Account;
use crate::codec::{
    expect_object, get_required, required, FromJson, MismatchModel, ShapeMismatch,
};
use crate::json::{Json, JsonModel};

verus! {

/// What is read of a transaction in a page: the ledger that holds it.
#[derive(Debug)]
pub struct AccountTransactionTx {
    pub ledger_index: u64,
}

/// Mathematical model of [`AccountTransactionTx`].
pub ghost struct AccountTransactionTxModel {
    pub ledger_index: u64,
}

impl DeepView for AccountTransactionTx {
    type V = AccountTransactionTxModel;

    open spec fn deep_view(&self) -> AccountTransactionTxModel {
        AccountTransactionTxModel {
            ledger_index: self.ledger_index.deep_view(),
        }
    }
}

impl FromJson for AccountTransactionTx {
    open spec fn decode(j: JsonModel) -> Result<AccountTransactionTxModel, MismatchModel> {
        let ledger_index = required::<u64>(j, "ledger_index"@);
        if !(j is Object) {
            Err(MismatchModel::here())
        } else if ledger_index is Err {
            Err(ledger_index->Err_0)
        } else {
            Ok(
                AccountTransactionTxModel {
                    ledger_index: ledger_index->Ok_0,
                },
            )
        }
    }

    fn from_json(j: &Json) -> (outcome: Result<AccountTransactionTx, ShapeMismatch>) {
        expect_object(j)?;
        let ledger_index: u64 = get_required(j, "ledger_index")?;
        Ok(
            AccountTransactionTx {
                ledger_index,
            },
        )
    }
}

/// One transaction in a page, with its metadata as the node wrote them.
#[derive(Debug)]
pub struct AccountTransaction {
    pub meta: Json,
    pub tx: AccountTransactionTx,
    pub validated: bool,
}

/// Mathematical model of [`AccountTransaction`].
pub ghost struct AccountTransactionModel {
    pub meta: JsonModel,
    pub tx: AccountTransactionTxModel,
    pub validated: bool,
}

impl DeepView for AccountTransaction {
    type V = AccountTransactionModel;

    open spec fn deep_view(&self) -> AccountTransactionModel {
        AccountTransactionModel {
            meta: self.meta.deep_view(),
            tx: self.tx.deep_view(),
            validated: self.validated.deep_view(),
        }
    }
}

impl FromJson for AccountTransaction {
    open spec fn decode(j: JsonModel) -> Result<AccountTransactionModel, MismatchModel> {
        let meta = required::<Json>(j, "meta"@);
        let tx = required::<AccountTransactionTx>(j, "tx"@);
        let validated = required::<bool>(j, "validated"@);
        if !(j is Object) {
            Err(MismatchModel::here())
        } else if meta is Err {
            Err(meta->Err_0)
        } else if tx is Err {
            Err(tx->Err_0)
        } else if validated is Err {
            Err(validated->Err_0)
        } else {
            Ok(
                AccountTransactionModel {
                    meta: meta->Ok_0,
                    tx: tx->Ok_0,
                    validated: validated->Ok_0,
                },
            )
        }
    }

    fn from_json(j: &Json) -> (outcome: Result<AccountTransaction, ShapeMismatch>) {
        expect_object(j)?;
        let meta: Json = get_required(j, "meta")?;
        let tx: AccountTransactionTx = get_required(j, "tx")?;
        let validated: bool = get_required(j, "validated")?;
        Ok(
            AccountTransaction {
                meta,
                tx,
                validated,
            },
        )
    }
}

/// The result of `account_tx`.
#[derive(Debug)]
pub struct AccountTx {
    pub account: Account,
    pub ledger_index_min: i64,
    pub ledger_index_max: i64,
    pub limit: i64,
    pub transactions: Vec<AccountTransaction>,
}

/// Mathematical model of [`AccountTx`].
pub ghost struct AccountTxModel {
    pub account: Seq<char>,
    pub ledger_index_min: i64,
    pub ledger_index_max: i64,
    pub limit: i64,
    pub transactions: Seq<AccountTransactionModel>,
}

impl DeepView for AccountTx {
    type V = AccountTxModel;

    open spec fn deep_view(&self) -> AccountTxModel {
        AccountTxModel {
            account: self.account.deep_view(),
            ledger_index_min: self.ledger_index_min.deep_view(),
            ledger_index_max: self.ledger_index_max.deep_view(),
            limit: self.limit.deep_view(),
            transactions: self.transactions.deep_view(),
        }
    }
}

impl FromJson for AccountTx {
    open spec fn decode(j: JsonModel) -> Result<AccountTxModel, MismatchModel> {
        let account = required::<Account>(j, "account"@);
        let ledger_index_min = required::<i64>(j, "ledger_index_min"@);
        let ledger_index_max = required::<i64>(j, "ledger_index_max"@);
        let limit = required::<i64>(j, "limit"@);
        let transactions = required::<Vec<AccountTransaction>>(j, "transactions"@);
        if !(j is Object) {
            Err(MismatchModel::here())
        } else if account is Err {
            Err(account->Err_0)
        } else if ledger_index_min is Err {
            Err(ledger_index_min->Err_0)
        } else if ledger_index_max is Err {
            Err(ledger_index_max->Err_0)
        } else if limit is Err {
            Err(limit->Err_0)
        } else if transactions is Err {
            Err(transactions->Err_0)
        } else {
            Ok(
                AccountTxModel {
                    account: account->Ok_0,
                    ledger_index_min: ledger_index_min->Ok_0,
                    ledger_index_max: ledger_index_max->Ok_0,
                    limit: limit->Ok_0,
                    transactions: transactions->Ok_0,
                },
            )
        }
    }

    fn from_json(j: &Json) -> (outcome: Result<AccountTx, ShapeMismatch>) {
        expect_object(j)?;
        let account: Account = get_required(j, "account")?;
        let ledger_index_min: i64 = get_required(j, "ledger_index_min")?;
        let ledger_index_max: i64 = get_required(j, "ledger_index_max")?;
        let limit: i64 = get_required(j, "limit")?;
        let transactions: Vec<AccountTransaction> = get_required(j, "transactions")?;
        Ok(
            AccountTx {
                account,
                ledger_index_min,
                ledger_index_max,
                limit,
                transactions,
            },
        )
    }
}
} // verus!
