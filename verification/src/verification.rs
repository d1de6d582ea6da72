//! Proving ownership of a new e-mail address: a token is stored for the user
//! and mailed to the address, and the address is taken over when the user
//! sends the token back.

use vstd::prelude::*;
use vstd::string::StringExecFns;

use crate::db::{is_violation, violates, DbFailure, FOREIGN_KEY_VIOLATION, UNIQUE_VIOLATION};
use crate::postmark::{spaced_token_text, MessageStream, PostmarkError, Transaction, Verification, DATETIME_FORMAT};
use crate::responses::{is_reply, Reply};
use crate::util::email_address::EmailAddress;
use crate::util::time::{chrono_utc_format, Timestamp};
use crate::util::verification_token::{token_text, VerificationToken};

verus! {

/// The constraint tying a pending verification to an existing user.
pub const EMAIL_VERIFICATION_USER_ID_FKEY: &'static str = "email_verification_user_id_fkey";

/// The constraint that keeps an address pending for one user only.
pub const EMAIL_VERIFICATION_EMAIL_ADDRESS_KEY: &'static str = "email_verification_email_address_key";

/// Why starting a verification failed.
#[derive(Debug)]
pub enum CreateError {
    /// The session's user is not in the database.
    UserNotExists,
    /// Another user is already verifying the address.
    EmailInUse,
    /// The database failed.
    Database(DbFailure),
    /// The message could not be sent.
    Postmark(PostmarkError),
}

impl CreateError {
    /// The error a failed insert becomes: a foreign-key violation on the
    /// user is an unknown user, a unique violation on the address an address
    /// in use, anything else a database failure.
    pub open spec fn spec_from_db(f: DbFailure) -> CreateError {
        if is_violation(f, FOREIGN_KEY_VIOLATION@, EMAIL_VERIFICATION_USER_ID_FKEY@) {
            CreateError::UserNotExists
        } else if is_violation(f, UNIQUE_VIOLATION@, EMAIL_VERIFICATION_EMAIL_ADDRESS_KEY@) {
            CreateError::EmailInUse
        } else {
            CreateError::Database(f)
        }
    }

    /// The error a failed insert becomes (see [`CreateError::spec_from_db`]).
    pub fn from_db(f: DbFailure) -> (r: CreateError)
        ensures
            r == CreateError::spec_from_db(f),
    {
        if violates(&f, FOREIGN_KEY_VIOLATION, EMAIL_VERIFICATION_USER_ID_FKEY) {
            CreateError::UserNotExists
        } else if violates(&f, UNIQUE_VIOLATION, EMAIL_VERIFICATION_EMAIL_ADDRESS_KEY) {
            CreateError::EmailInUse
        } else {
            CreateError::Database(f)
        }
    }

    /// The HTTP status the error is answered with.
    pub open spec fn spec_status(&self) -> u16 {
        match self {
            CreateError::UserNotExists => 404,
            CreateError::EmailInUse => 409,
            _ => 500,
        }
    }

    /// The text the error is answered with.
    pub open spec fn spec_message(&self) -> Seq<char> {
        match self {
            CreateError::UserNotExists => "user does not exist"@,
            CreateError::EmailInUse => "email already in use"@,
            _ => "internal server error"@,
        }
    }

    /// The answer to the request: 404 for an unknown user, 409 for an
    /// address in use, 500 otherwise, with the error's text.
    pub fn reply(&self) -> (r: Reply)
        ensures
            is_reply(r, self.spec_status(), None, self.spec_message()),
    {
        match self {
            CreateError::UserNotExists => Reply::text(404, "user does not exist"),
            CreateError::EmailInUse => Reply::text(409, "email already in use"),
            _ => Reply::text(500, "internal server error"),
        }
    }
}

/// The row that records a pending verification: whose it is, the address
/// and the token's text.
pub struct PendingVerification {
    pub user_id: u128,
    pub email_address: String,
    pub proof_token: String,
}

impl PendingVerification {
    /// The row as the store keeps it: user, address and token text.
    pub open spec fn row(&self) -> (u128, Seq<char>, Seq<char>) {
        (self.user_id, self.email_address@, self.proof_token@)
    }
}

/// The rows other than `row`.
pub open spec fn differs_from(row: (u128, Seq<char>, Seq<char>)) -> spec_fn((u128, Seq<char>, Seq<char>)) -> bool {
    |r: (u128, Seq<char>, Seq<char>)| r != row
}

/// The rows equal to `row`.
pub open spec fn same_as(row: (u128, Seq<char>, Seq<char>)) -> spec_fn((u128, Seq<char>, Seq<char>)) -> bool {
    |r: (u128, Seq<char>, Seq<char>)| r == row
}

/// The pending rows left once a confirmation deleted those equal to `row`.
pub open spec fn delete_matching(rows: Seq<(u128, Seq<char>, Seq<char>)>, row: (u128, Seq<char>, Seq<char>)) -> Seq<
    (u128, Seq<char>, Seq<char>),
> {
    rows.filter(differs_from(row))
}

/// How many pending rows are equal to `row`: what deleting them reports.
pub open spec fn count_matching(rows: Seq<(u128, Seq<char>, Seq<char>)>, row: (u128, Seq<char>, Seq<char>)) -> nat {
    rows.filter(same_as(row)).len()
}

/// A sequence none of whose elements passes `pred` keeps nothing through it.
proof fn lemma_filter_none<A>(s: Seq<A>, pred: spec_fn(A) -> bool)
    requires
        forall|i: int| 0 <= i < s.len() ==> !pred(#[trigger] s[i]),
    ensures
        s.filter(pred).len() == 0,
    decreases s.len(),
{
    reveal(Seq::filter);
    if s.len() > 0 {
        let rest = s.drop_last();
        assert forall|i: int| 0 <= i < rest.len() implies !pred(#[trigger] rest[i]) by {
            assert(rest[i] == s[i]);
        }
        lemma_filter_none(rest, pred);
        assert(!pred(s[s.len() - 1]));
    }
}

/// A token confirms once: after a confirmation has deleted the pending rows
/// that match the user, the address and the token, the same confirmation
/// deletes nothing and is answered as no match.
pub proof fn lemma_token_single_use(rows: Seq<(u128, Seq<char>, Seq<char>)>, row: (u128, Seq<char>, Seq<char>))
    ensures
        count_matching(delete_matching(rows, row), row) == 0,
        step_for_count(count_matching(delete_matching(rows, row), row) as u64)
            == Err::<ConfirmStep, ConfirmError>(ConfirmError::NoVerificationMatch),
{
    let ne = differs_from(row);
    let eq = same_as(row);
    let kept = rows.filter(ne);
    assert forall|i: int| 0 <= i < kept.len() implies !eq(#[trigger] kept[i]) by {
        rows.lemma_filter_pred(ne, i);
    }
    lemma_filter_none(kept, eq);
}

/// The row stored when `user_id` asks to verify `email_address` with `token`.
pub fn pending_verification(user_id: u128, email_address: &EmailAddress, token: &VerificationToken) -> (r: PendingVerification)
    ensures
        r.user_id == user_id,
        r.email_address@ == email_address@,
        r.proof_token@ == token_text(token@),
{
    PendingVerification {
        user_id,
        email_address: String::from_str(email_address.as_str()),
        proof_token: token.to_string(),
    }
}

/// After the pending row was stored (or not): the message that mails the
/// token, or the error the insert becomes. `Ok(None)` when chrono cannot
/// write `now`, for which no message can be built.
pub fn message_after_insert<'a>(
    insert: Result<(), DbFailure>,
    email_address: &'a EmailAddress,
    now: Timestamp,
    token: VerificationToken,
) -> (r: Result<Option<Transaction<'a, Verification>>, CreateError>)
    ensures
        match insert {
            Err(f) => r == Err::<Option<Transaction<'a, Verification>>, CreateError>(CreateError::spec_from_db(f)),
            Ok(_) => match r {
                Ok(Some(t)) => {
                    &&& chrono_utc_format(now.seconds, now.nanoseconds, DATETIME_FORMAT@) is Some
                    &&& t.spec_message_stream() == MessageStream::Verification
                    &&& t.spec_to() == email_address@
                    &&& t.spec_track_opens()
                    &&& Some(t.spec_kind().spec_creation_datetime()) == chrono_utc_format(
                        now.seconds,
                        now.nanoseconds,
                        DATETIME_FORMAT@,
                    )
                    &&& t.spec_kind().spec_proof_token() == spaced_token_text(token@)
                },
                Ok(None) => chrono_utc_format(now.seconds, now.nanoseconds, DATETIME_FORMAT@) is None,
                Err(_) => false,
            },
        },
{
    match insert {
        Err(f) => Err(CreateError::from_db(f)),
        Ok(()) => Ok(Transaction::verification(email_address.as_str(), now, token)),
    }
}

/// The answer once a verification was started: 200 with no text, or the
/// error's answer.
pub fn create_reply(outcome: &Result<(), CreateError>) -> (r: Reply)
    ensures
        match outcome {
            Ok(_) => is_reply(r, 200, None, Seq::empty()),
            Err(e) => is_reply(r, e.spec_status(), None, e.spec_message()),
        },
{
    match outcome {
        Ok(()) => Reply::owned(200, String::new()),
        Err(e) => e.reply(),
    }
}

/// Why confirming a verification failed.
#[derive(Debug)]
pub enum ConfirmError {
    /// No pending verification has that user, address and token.
    NoVerificationMatch,
    /// The database failed.
    Database(DbFailure),
}

impl ConfirmError {
    /// Every failed statement is a database failure.
    pub fn from_db(f: DbFailure) -> (r: ConfirmError)
        ensures
            r == ConfirmError::Database(f),
    {
        ConfirmError::Database(f)
    }

    /// The HTTP status the error is answered with.
    pub open spec fn spec_status(&self) -> u16 {
        match self {
            ConfirmError::NoVerificationMatch => 404,
            ConfirmError::Database(_) => 500,
        }
    }

    /// The text the error is answered with.
    pub open spec fn spec_message(&self) -> Seq<char> {
        match self {
            ConfirmError::NoVerificationMatch => "no verification match"@,
            ConfirmError::Database(_) => "internal server error"@,
        }
    }

    /// The answer to the request: 404 when nothing matched, 500 otherwise,
    /// with the error's text.
    pub fn reply(&self) -> (r: Reply)
        ensures
            is_reply(r, self.spec_status(), None, self.spec_message()),
    {
        match self {
            ConfirmError::NoVerificationMatch => Reply::text(404, "no verification match"),
            ConfirmError::Database(_) => Reply::text(500, "internal server error"),
        }
    }
}

/// What follows the deletion of the pending rows that match the user, the
/// address and the token (the row [`pending_verification`] builds).
#[derive(Debug, PartialEq, Eq, Structural)]
pub enum ConfirmStep {
    /// Exactly one row matched: the user's address is replaced by the
    /// verified one.
    UpdateAddress,
    /// Several rows were removed; this is logged and the request succeeds
    /// without touching the user.
    Anomalous { removed: u64 },
}

/// What follows a deletion of `n` matching rows: none is no match, one
/// leads to the address update, more is an anomaly that still succeeds.
pub open spec fn step_for_count(n: u64) -> Result<ConfirmStep, ConfirmError> {
    if n == 0 {
        Err(ConfirmError::NoVerificationMatch)
    } else if n == 1 {
        Ok(ConfirmStep::UpdateAddress)
    } else {
        Ok(ConfirmStep::Anomalous { removed: n })
    }
}

/// Decides from the number of deleted rows (see [`step_for_count`]); a
/// failed deletion is a database failure.
pub fn step_after_delete(deleted: Result<u64, DbFailure>) -> (r: Result<ConfirmStep, ConfirmError>)
    ensures
        match deleted {
            Err(f) => r == Err::<ConfirmStep, ConfirmError>(ConfirmError::Database(f)),
            Ok(n) => r == step_for_count(n),
        },
{
    match deleted {
        Err(f) => Err(ConfirmError::from_db(f)),
        Ok(0) => Err(ConfirmError::NoVerificationMatch),
        Ok(1) => Ok(ConfirmStep::UpdateAddress),
        Ok(n) => Ok(ConfirmStep::Anomalous { removed: n }),
    }
}

/// The answer once a confirmation ran: 200 with no text, or the error's
/// answer.
pub fn confirm_reply(outcome: &Result<(), ConfirmError>) -> (r: Reply)
    ensures
        match outcome {
            Ok(_) => is_reply(r, 200, None, Seq::empty()),
            Err(e) => is_reply(r, e.spec_status(), None, e.spec_message()),
        },
{
    match outcome {
        Ok(()) => Reply::owned(200, String::new()),
        Err(e) => e.reply(),
    }
}

} // verus!
