//! The ledger's records: account kinds, accounts and commodities, and how a
//! failed statement on them is sorted.

use vstd::prelude::*;
use vstd::string::StringExecFns;

use crate::db::{is_violation, violates, DbFailure, UNIQUE_VIOLATION};
use crate::responses::{is_reply, Reply};
use crate::util::time::Timestamp;

verus! {

/// What an account holds, in double-entry terms.
#[derive(Debug, Clone, Copy, PartialEq, Eq, Structural)]
pub enum Kind {
    Equity,
    Asset,
    Liability,
    Income,
    Expense,
}

impl Kind {
    /// The number a kind is stored as.
    pub open spec fn spec_code(self) -> i16 {
        match self {
            Kind::Equity => 0,
            Kind::Asset => 1,
            Kind::Liability => 2,
            Kind::Income => 3,
            Kind::Expense => 4,
        }
    }

    /// The kind a stored number stands for; unknown numbers read as `Equity`.
    pub open spec fn spec_from_code(code: i16) -> Kind {
        if code == 1 {
            Kind::Asset
        } else if code == 2 {
            Kind::Liability
        } else if code == 3 {
            Kind::Income
        } else if code == 4 {
            Kind::Expense
        } else {
            Kind::Equity
        }
    }

    /// The name a kind is written as in JSON and forms.
    pub open spec fn spec_name(self) -> Seq<char> {
        match self {
            Kind::Equity => "EQUITY"@,
            Kind::Asset => "ASSET"@,
            Kind::Liability => "LIABILITY"@,
            Kind::Income => "INCOME"@,
            Kind::Expense => "EXPENSE"@,
        }
    }

    /// The kind written as `name`, if any.
    pub open spec fn spec_from_name(name: Seq<char>) -> Option<Kind> {
        if name == "EQUITY"@ {
            Some(Kind::Equity)
        } else if name == "ASSET"@ {
            Some(Kind::Asset)
        } else if name == "LIABILITY"@ {
            Some(Kind::Liability)
        } else if name == "INCOME"@ {
            Some(Kind::Income)
        } else if name == "EXPENSE"@ {
            Some(Kind::Expense)
        } else {
            None
        }
    }

    /// The number a kind is stored as.
    pub fn code(self) -> (r: i16)
        ensures
            r == self.spec_code(),
    {
        match self {
            Kind::Equity => 0,
            Kind::Asset => 1,
            Kind::Liability => 2,
            Kind::Income => 3,
            Kind::Expense => 4,
        }
    }

    /// The kind a stored number stands for; unknown numbers read as `Equity`.
    pub fn from_code(code: i16) -> (r: Kind)
        ensures
            r == Kind::spec_from_code(code),
    {
        if code == 1 {
            Kind::Asset
        } else if code == 2 {
            Kind::Liability
        } else if code == 3 {
            Kind::Income
        } else if code == 4 {
            Kind::Expense
        } else {
            Kind::Equity
        }
    }

    /// The name a kind is written as.
    pub fn name(self) -> (r: &'static str)
        ensures
            r@ == self.spec_name(),
    {
        match self {
            Kind::Equity => "EQUITY",
            Kind::Asset => "ASSET",
            Kind::Liability => "LIABILITY",
            Kind::Income => "INCOME",
            Kind::Expense => "EXPENSE",
        }
    }

    /// The kind written as `name`, if any; names are upper case.
    pub fn from_name(name: &str) -> (r: Option<Kind>)
        ensures
            r == Kind::spec_from_name(name@),
    {
        let name = String::from_str(name);
        proof {
            reveal_strlit("EQUITY");
            reveal_strlit("ASSET");
            reveal_strlit("LIABILITY");
            reveal_strlit("INCOME");
            reveal_strlit("EXPENSE");
        }
        if name == String::from_str("EQUITY") {
            Some(Kind::Equity)
        } else if name == String::from_str("ASSET") {
            Some(Kind::Asset)
        } else if name == String::from_str("LIABILITY") {
            Some(Kind::Liability)
        } else if name == String::from_str("INCOME") {
            Some(Kind::Income)
        } else if name == String::from_str("EXPENSE") {
            Some(Kind::Expense)
        } else {
            None
        }
    }
}

impl Default for Kind {
    fn default() -> (r: Kind)
        ensures
            r == Kind::Equity,
    {
        Kind::Equity
    }
}

impl From<Kind> for i16 {
    fn from(kind: Kind) -> (r: i16) {
        kind.code()
    }
}

impl vstd::std_specs::convert::FromSpecImpl<Kind> for i16 {
    open spec fn obeys_from_spec() -> bool {
        true
    }

    open spec fn from_spec(v: Kind) -> i16 {
        v.spec_code()
    }
}

/// A stored kind number read back gives the kind.
pub proof fn lemma_kind_code_roundtrip(kind: Kind)
    ensures
        Kind::spec_from_code(kind.spec_code()) == kind,
{
}

/// The numbers of the kinds are `0` to `4`; every other number reads as the
/// default kind.
pub proof fn lemma_kind_unknown_code(code: i16)
    requires
        !(0 <= code <= 4),
    ensures
        Kind::spec_from_code(code) == Kind::Equity,
{
}

/// A kind's written name read back gives the kind.
pub proof fn lemma_kind_name_roundtrip(kind: Kind)
    ensures
        Kind::spec_from_name(kind.spec_name()) == Some(kind),
{
    reveal_strlit("EQUITY");
    reveal_strlit("ASSET");
    reveal_strlit("LIABILITY");
    reveal_strlit("INCOME");
    reveal_strlit("EXPENSE");
    assert("EQUITY"@[0] != "ASSET"@[0] && "EQUITY"@[0] != "LIABILITY"@[0]);
    assert("EQUITY"@[0] != "INCOME"@[0] && "ASSET"@[0] != "LIABILITY"@[0]);
    assert("ASSET"@[0] != "INCOME"@[0] && "LIABILITY"@[0] != "INCOME"@[0]);
    assert("EXPENSE"@[1] != "EQUITY"@[1]);
    assert("EXPENSE"@[0] != "ASSET"@[0] && "EXPENSE"@[0] != "LIABILITY"@[0]);
    assert("EXPENSE"@[0] != "INCOME"@[0]);
}

/// A kind is written as the upper-case name of what it stands for, in the
/// order of the stored codes: the account stored as code `c` is written as
/// the `c`-th of EQUITY, ASSET, LIABILITY, INCOME, EXPENSE, and that name
/// reads back as the kind stored as `c`.
pub proof fn lemma_kind_names_by_code(code: i16)
    requires
        0 <= code <= 4,
    ensures
        Kind::spec_from_code(code).spec_name() == seq![
            "EQUITY"@,
            "ASSET"@,
            "LIABILITY"@,
            "INCOME"@,
            "EXPENSE"@,
        ][code as int],
        Kind::spec_from_name(
            seq!["EQUITY"@, "ASSET"@, "LIABILITY"@, "INCOME"@, "EXPENSE"@][code as int],
        ) == Some(Kind::spec_from_code(code)),
        Kind::spec_from_code(code).spec_code() == code,
{
    lemma_kind_name_roundtrip(Kind::spec_from_code(code));
}

/// Reading a name gives a kind only where that kind is written so.
pub proof fn lemma_kind_from_name_exact(name: Seq<char>)
    ensures
        Kind::spec_from_name(name) matches Some(k) ==> k.spec_name() == name,
{
}

/// What a user gives to create or change an account.
pub struct AccountInfo {
    pub kind: Kind,
    pub name: String,
    pub description: Option<String>,
}

/// The fields of a form that creates an account.
pub struct CreateAccount {
    pub kind: Kind,
    pub name: String,
    pub description: Option<String>,
}

/// The query that finds one of the user's accounts by kind and name.
pub struct ReadAccount {
    pub kind: Kind,
    pub name: String,
}

/// A stored account.
pub struct Account {
    pub id: u128,
    pub created: Timestamp,
    pub kind: Kind,
    pub name: String,
    pub description: Option<String>,
}

/// What a user gives to create or change a commodity.
pub struct CommodityInfo {
    pub name: String,
    pub format: String,
}

/// A stored commodity.
pub struct Commodity {
    pub id: u128,
    pub created: Timestamp,
    pub name: String,
    pub format: String,
}

/// The accounts shown in the accounts partial.
pub struct AccountsTemplate {
    pub accounts: Vec<AccountInfo>,
}

/// The constraint that keeps a user's account names unique per kind.
pub const ACCOUNTS_USER_ID_KIND_NAME_KEY: &'static str = "accounts_user_id_kind_name_key";

/// Why a statement on accounts or commodities failed.
#[derive(Debug)]
pub enum AccountsError {
    /// The user already has an account of that kind and name.
    Duplicate,
    /// The database failed.
    Database(DbFailure),
}

impl AccountsError {
    /// The error a failed statement becomes.
    pub open spec fn spec_from_db(f: DbFailure) -> AccountsError {
        if is_violation(f, UNIQUE_VIOLATION@, ACCOUNTS_USER_ID_KIND_NAME_KEY@) {
            AccountsError::Duplicate
        } else {
            AccountsError::Database(f)
        }
    }

    /// The error a failed statement becomes: a unique violation on the
    /// account's kind and name is a duplicate, anything else a database failure.
    pub fn from_db(f: DbFailure) -> (r: AccountsError)
        ensures
            r == AccountsError::spec_from_db(f),
    {
        if violates(&f, UNIQUE_VIOLATION, ACCOUNTS_USER_ID_KIND_NAME_KEY) {
            AccountsError::Duplicate
        } else {
            AccountsError::Database(f)
        }
    }

    /// The HTTP status the error is answered with.
    pub open spec fn spec_status(&self) -> u16 {
        match self {
            AccountsError::Duplicate => 409,
            AccountsError::Database(_) => 500,
        }
    }

    /// The text the error is answered with.
    pub open spec fn spec_message(&self) -> Seq<char> {
        match self {
            AccountsError::Duplicate => "account already exists"@,
            AccountsError::Database(_) => "internal server error"@,
        }
    }

    /// The answer: 409 for a duplicate, 500 otherwise, with the error's text.
    pub fn reply(&self) -> (r: Reply)
        ensures
            is_reply(r, self.spec_status(), None, self.spec_message()),
    {
        match self {
            AccountsError::Duplicate => Reply::text(409, "account already exists"),
            AccountsError::Database(_) => Reply::text(500, "internal server error"),
        }
    }
}

/// How the list of a user's accounts is answered.
#[derive(Debug, PartialEq, Eq, Structural)]
pub enum AccountsListing {
    /// The accounts partial (kind, name and description), for htmx.
    Partial,
    /// Every stored field, as JSON.
    Json,
}

/// htmx requests get the partial, others the JSON list.
pub fn accounts_listing(is_htmx: bool) -> (r: AccountsListing)
    ensures
        r == (if is_htmx { AccountsListing::Partial } else { AccountsListing::Json }),
{
    if is_htmx {
        AccountsListing::Partial
    } else {
        AccountsListing::Json
    }
}

impl AccountInfo {
    /// The number the account's kind is stored as.
    pub fn kind_code(&self) -> (r: i16)
        ensures
            r == self.kind.spec_code(),
    {
        self.kind.code()
    }
}

impl CreateAccount {
    /// The number the account's kind is stored as.
    pub fn kind_code(&self) -> (r: i16)
        ensures
            r == self.kind.spec_code(),
    {
        self.kind.code()
    }
}

impl ReadAccount {
    /// The number the account's kind is stored as.
    pub fn kind_code(&self) -> (r: i16)
        ensures
            r == self.kind.spec_code(),
    {
        self.kind.code()
    }
}

} // verus!
