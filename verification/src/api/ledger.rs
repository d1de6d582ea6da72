//! How the ledger API answers: for each operation on accounts, commodities
//! and transactions, the status and text of every outcome.
//!
//! A record that was read or written is answered with its JSON text, which
//! the caller has already encoded.

use vstd::prelude::*;
use vstd::string::StringExecFns;

use crate::db::{is_violation, violates, DbFailure, UNIQUE_VIOLATION};
use crate::ledger::ACCOUNTS_USER_ID_KIND_NAME_KEY;
use crate::responses::{is_reply, ok_body, server_error, Reply};

verus! {

/// Why an operation on a user's accounts failed.
#[derive(Debug)]
pub enum AccountError {
    /// No account of the user has that id.
    NotFound,
    /// The user already has an account of that kind and name.
    Duplicate,
    /// The name is longer than the store takes.
    NameLength,
    /// The description is longer than the store takes.
    DescriptionLength,
    /// Any other failure, as the store described it.
    Failed(String),
}

impl AccountError {
    /// The error a failed statement on accounts becomes: no row is an
    /// unknown account, a unique violation on kind and name a duplicate, and
    /// anything else a failure described by the database's message.
    pub fn from_db(f: DbFailure) -> (r: AccountError)
        ensures
            (f is RowNotFound) ==> r is NotFound,
            is_violation(f, UNIQUE_VIOLATION@, ACCOUNTS_USER_ID_KIND_NAME_KEY@) ==> r is Duplicate,
            !(f is RowNotFound) && !is_violation(f, UNIQUE_VIOLATION@, ACCOUNTS_USER_ID_KIND_NAME_KEY@)
                ==> (r matches AccountError::Failed(m) && m@ == f.spec_text()),
    {
        if f.is_row_not_found() {
            AccountError::NotFound
        } else if violates(&f, UNIQUE_VIOLATION, ACCOUNTS_USER_ID_KIND_NAME_KEY) {
            AccountError::Duplicate
        } else {
            AccountError::Failed(f.text())
        }
    }
}

/// Why an operation on a user's commodities failed.
#[derive(Debug)]
pub enum CommodityError {
    NotFound,
    Duplicate,
    NameLength,
    DescriptionLength,
    SymbolLength,
    ThousandsSeparatorLength,
    DecimalSeparatorLength,
    Failed(String),
}

/// Why an operation on a user's transactions failed.
#[derive(Debug)]
pub enum TransactionError {
    NotFound,
    Duplicate,
    NameLength,
    DescriptionLength,
    /// The currency code is longer than a code can be.
    CurrencyCodeLength,
    /// The currency code is not one the ledger knows.
    CurrencyCodeSupport,
    Failed(String),
}

/// The answer to a failed account creation.
pub open spec fn account_create_answer(e: AccountError) -> (u16, Seq<char>) {
    match e {
        AccountError::Duplicate => (409, "Account already exists."@),
        AccountError::NameLength => (400, "Account name is too long."@),
        AccountError::DescriptionLength => (400, "Account description is too long."@),
        _ => (500, "internal server error"@),
    }
}

/// The answer to a failed account read.
pub open spec fn account_read_answer(e: AccountError) -> (u16, Seq<char>) {
    match e {
        AccountError::NotFound => (404, "Account was not found."@),
        _ => (500, "internal server error"@),
    }
}

/// The answer to a failed account update.
pub open spec fn account_update_answer(e: AccountError) -> (u16, Seq<char>) {
    match e {
        AccountError::NotFound => (404, "Account was not found."@),
        AccountError::Duplicate => (409, "Account already exists."@),
        AccountError::NameLength => (400, "Account name is too long."@),
        AccountError::DescriptionLength => (400, "Account description is too long."@),
        _ => (500, "internal server error"@),
    }
}

/// Whether `r` answers a record operation: the record's JSON with 200, or
/// the failure's answer.
pub open spec fn answers_record<E>(r: Reply, outcome: Result<String, E>, failed: spec_fn(E) -> (u16, Seq<char>)) -> bool {
    match outcome {
        Ok(json) => is_reply(r, 200, None, json@),
        Err(e) => is_reply(r, failed(e).0, None, failed(e).1),
    }
}

/// The answer to listing all of the user's accounts: the JSON list, or 500.
pub fn account_read_all_reply(outcome: Result<String, AccountError>) -> (r: Reply)
    ensures
        answers_record(r, outcome, |e: AccountError| (500u16, "internal server error"@)),
{
    match outcome {
        Ok(json) => ok_body(json),
        Err(_) => server_error(),
    }
}

/// The answer to creating an account: the new record, or 409 for a
/// duplicate, 400 for a name or description too long, 500 otherwise.
pub fn account_create_reply(outcome: Result<String, AccountError>) -> (r: Reply)
    ensures
        answers_record(r, outcome, |e: AccountError| account_create_answer(e)),
{
    match outcome {
        Ok(json) => ok_body(json),
        Err(AccountError::Duplicate) => Reply::text(409, "Account already exists."),
        Err(AccountError::NameLength) => Reply::text(400, "Account name is too long."),
        Err(AccountError::DescriptionLength) => Reply::text(400, "Account description is too long."),
        Err(_) => server_error(),
    }
}

/// The answer to reading an account: the record, or 404 when the user has
/// no such account, 500 otherwise.
pub fn account_read_reply(outcome: Result<String, AccountError>) -> (r: Reply)
    ensures
        answers_record(r, outcome, |e: AccountError| account_read_answer(e)),
        outcome matches Err(AccountError::NotFound) ==> is_reply(r, 404, None, "Account was not found."@),
{
    match outcome {
        Ok(json) => ok_body(json),
        Err(AccountError::NotFound) => Reply::text(404, "Account was not found."),
        Err(_) => server_error(),
    }
}

/// The answer to changing an account: the changed record, or 404, 409,
/// 400 as for reading and creating, 500 otherwise.
pub fn account_update_reply(outcome: Result<String, AccountError>) -> (r: Reply)
    ensures
        answers_record(r, outcome, |e: AccountError| account_update_answer(e)),
        outcome matches Err(AccountError::NotFound) ==> is_reply(r, 404, None, "Account was not found."@),
{
    match outcome {
        Ok(json) => ok_body(json),
        Err(AccountError::NotFound) => Reply::text(404, "Account was not found."),
        Err(AccountError::Duplicate) => Reply::text(409, "Account already exists."),
        Err(AccountError::NameLength) => Reply::text(400, "Account name is too long."),
        Err(AccountError::DescriptionLength) => Reply::text(400, "Account description is too long."),
        Err(_) => server_error(),
    }
}

/// The answer to deleting an account: 200 with a confirmation, 404 when
/// the user has no such account, 500 otherwise.
pub fn account_delete_reply(outcome: Result<(), AccountError>) -> (r: Reply)
    ensures
        match outcome {
            Ok(_) => is_reply(r, 200, None, "Account has been deleted."@),
            Err(e) => is_reply(r, account_read_answer(e).0, None, account_read_answer(e).1),
        },
        outcome matches Err(AccountError::NotFound) ==> is_reply(r, 404, None, "Account was not found."@),
{
    match outcome {
        Ok(()) => Reply::text(200, "Account has been deleted."),
        Err(AccountError::NotFound) => Reply::text(404, "Account was not found."),
        Err(_) => server_error(),
    }
}

/// The answer to a failed commodity creation or update.
pub open spec fn commodity_write_answer(e: CommodityError) -> (u16, Seq<char>) {
    match e {
        CommodityError::Duplicate => (409, "commodity already exists"@),
        CommodityError::NameLength => (400, "commodity name too long"@),
        CommodityError::DescriptionLength => (400, "commodity description too long"@),
        CommodityError::SymbolLength => (400, "commodity symbol too long"@),
        CommodityError::ThousandsSeparatorLength => (400, "commodity thousands separator too long"@),
        CommodityError::DecimalSeparatorLength => (400, "commodity decimal separator too long"@),
        _ => (500, "internal server error"@),
    }
}

/// The answer to a failed commodity read or deletion.
pub open spec fn commodity_lookup_answer(e: CommodityError) -> (u16, Seq<char>) {
    match e {
        CommodityError::NotFound => (404, "commodity not found"@),
        _ => (500, "internal server error"@),
    }
}

/// The answer to a failed commodity creation or update: 409 for a
/// duplicate, 400 for a field too long, 500 otherwise. Only failures are
/// answered: the commodity handlers have no answer for success.
pub fn commodity_write_reply(error: &CommodityError) -> (r: Reply)
    ensures
        is_reply(r, commodity_write_answer(*error).0, None, commodity_write_answer(*error).1),
{
    match error {
        CommodityError::Duplicate => Reply::text(409, "commodity already exists"),
        CommodityError::NameLength => Reply::text(400, "commodity name too long"),
        CommodityError::DescriptionLength => Reply::text(400, "commodity description too long"),
        CommodityError::SymbolLength => Reply::text(400, "commodity symbol too long"),
        CommodityError::ThousandsSeparatorLength => Reply::text(400, "commodity thousands separator too long"),
        CommodityError::DecimalSeparatorLength => Reply::text(400, "commodity decimal separator too long"),
        _ => server_error(),
    }
}

/// The answer to a failed commodity read or deletion: 404 when the user
/// has no such commodity, 500 otherwise.
pub fn commodity_lookup_reply(error: &CommodityError) -> (r: Reply)
    ensures
        is_reply(r, commodity_lookup_answer(*error).0, None, commodity_lookup_answer(*error).1),
{
    match error {
        CommodityError::NotFound => Reply::text(404, "commodity not found"),
        _ => server_error(),
    }
}

/// The answer to a failed transaction creation.
pub open spec fn transaction_create_answer(e: TransactionError) -> (u16, Seq<char>) {
    match e {
        TransactionError::CurrencyCodeLength => (400, "Currency code is too long."@),
        TransactionError::CurrencyCodeSupport => (400, "Currency code is not supported."@),
        TransactionError::DescriptionLength => (400, "Description is too long."@),
        _ => (500, "internal server error"@),
    }
}

/// The answer to a failed transaction read or deletion.
pub open spec fn transaction_read_answer(e: TransactionError) -> (u16, Seq<char>) {
    match e {
        TransactionError::NotFound => (404, "Transaction was not found."@),
        _ => (500, "internal server error"@),
    }
}

/// The answer to a failed transaction update.
pub open spec fn transaction_update_answer(e: TransactionError) -> (u16, Seq<char>) {
    match e {
        TransactionError::NotFound => (404, "Transaction was not found."@),
        TransactionError::Duplicate => (409, "Transaction already exists."@),
        TransactionError::NameLength => (400, "Transaction name is too long."@),
        TransactionError::DescriptionLength => (400, "Transaction description is too long."@),
        _ => (500, "internal server error"@),
    }
}

/// Every operation on one transaction answers a transaction the user does
/// not have with 404 "Transaction was not found.": reading, changing and
/// deleting alike.
pub proof fn lemma_missing_transaction_is_not_found(e: TransactionError)
    requires
        e is NotFound,
    ensures
        transaction_read_answer(e) == (404u16, "Transaction was not found."@),
        transaction_update_answer(e) == (404u16, "Transaction was not found."@),
{
}

/// Every operation on one account answers an account the user does not
/// have with 404 "Account was not found.": reading, changing and deleting alike.
pub proof fn lemma_missing_account_is_not_found(e: AccountError)
    requires
        e is NotFound,
    ensures
        account_read_answer(e) == (404u16, "Account was not found."@),
        account_update_answer(e) == (404u16, "Account was not found."@),
{
}

/// The answer to listing all of the user's transactions: the JSON list, or 500.
pub fn transaction_read_all_reply(outcome: Result<String, TransactionError>) -> (r: Reply)
    ensures
        answers_record(r, outcome, |e: TransactionError| (500u16, "internal server error"@)),
{
    match outcome {
        Ok(json) => ok_body(json),
        Err(_) => server_error(),
    }
}

/// The answer to recording a transaction: the new record, or 400 for a
/// currency code too long or unknown or a description too long, 500 otherwise.
pub fn transaction_create_reply(outcome: Result<String, TransactionError>) -> (r: Reply)
    ensures
        answers_record(r, outcome, |e: TransactionError| transaction_create_answer(e)),
{
    match outcome {
        Ok(json) => ok_body(json),
        Err(TransactionError::CurrencyCodeLength) => Reply::text(400, "Currency code is too long."),
        Err(TransactionError::CurrencyCodeSupport) => Reply::text(400, "Currency code is not supported."),
        Err(TransactionError::DescriptionLength) => Reply::text(400, "Description is too long."),
        Err(_) => server_error(),
    }
}

/// The answer to reading a transaction: the record, or 404 when the user
/// has no such transaction, 500 otherwise.
pub fn transaction_read_reply(outcome: Result<String, TransactionError>) -> (r: Reply)
    ensures
        answers_record(r, outcome, |e: TransactionError| transaction_read_answer(e)),
        outcome matches Err(TransactionError::NotFound) ==> is_reply(r, 404, None, "Transaction was not found."@),
{
    match outcome {
        Ok(json) => ok_body(json),
        Err(TransactionError::NotFound) => Reply::text(404, "Transaction was not found."),
        Err(_) => server_error(),
    }
}

/// The answer to changing a transaction: the changed record, or 404 when
/// there is no such transaction, 409 for a duplicate, 400 for a name or
/// description too long, 500 otherwise.
pub fn transaction_update_reply(outcome: Result<String, TransactionError>) -> (r: Reply)
    ensures
        answers_record(r, outcome, |e: TransactionError| transaction_update_answer(e)),
        outcome matches Err(TransactionError::NotFound) ==> is_reply(r, 404, None, "Transaction was not found."@),
{
    match outcome {
        Ok(json) => ok_body(json),
        Err(TransactionError::NotFound) => Reply::text(404, "Transaction was not found."),
        Err(TransactionError::Duplicate) => Reply::text(409, "Transaction already exists."),
        Err(TransactionError::NameLength) => Reply::text(400, "Transaction name is too long."),
        Err(TransactionError::DescriptionLength) => Reply::text(400, "Transaction description is too long."),
        Err(_) => server_error(),
    }
}

/// The answer to deleting a transaction: 200 with a confirmation, 404 when
/// the user has no such transaction, 500 otherwise.
pub fn transaction_delete_reply(outcome: Result<(), TransactionError>) -> (r: Reply)
    ensures
        match outcome {
            Ok(_) => is_reply(r, 200, None, "Transaction has been deleted."@),
            Err(e) => is_reply(r, transaction_read_answer(e).0, None, transaction_read_answer(e).1),
        },
        outcome matches Err(TransactionError::NotFound) ==> is_reply(r, 404, None, "Transaction was not found."@),
{
    match outcome {
        Ok(()) => Reply::text(200, "Transaction has been deleted."),
        Err(TransactionError::NotFound) => Reply::text(404, "Transaction was not found."),
        Err(_) => server_error(),
    }
}

} // verus!
