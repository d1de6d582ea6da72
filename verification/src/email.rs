//! The e-mails the server sends.

use vstd::prelude::*;
use vstd::string::StringExecFns;

use crate::postmark::DATETIME_FORMAT;
use crate::util::time::{chrono_utc_format, format_utc, Timestamp};
use crate::util::verification_token::{token_text, VerificationToken};

verus! {

/// An e-mail with a subject line (its HTML body is rendered from a template).
pub trait EmailTemplate {
    /// The subject line.
    spec fn spec_subject(&self) -> Seq<char>;

    /// The subject line.
    fn subject(&self) -> (r: String)
        ensures
            r@ == self.spec_subject(),
    ;
}

/// The e-mail carrying a verification code.
pub struct VerificationEmailTemplate {
    creation_datetime: String,
    proof_token: String,
}

impl VerificationEmailTemplate {
    pub closed spec fn spec_creation_datetime(&self) -> Seq<char> {
        self.creation_datetime@
    }

    pub closed spec fn spec_proof_token(&self) -> Seq<char> {
        self.proof_token@
    }

    /// The e-mail for `verification_token`, created at `creation`. `None`
    /// when chrono cannot write that time.
    pub fn new(creation: Timestamp, verification_token: &VerificationToken) -> (r: Option<Self>)
        ensures
            r is Some <==> chrono_utc_format(creation.seconds, creation.nanoseconds, DATETIME_FORMAT@) is Some,
            r matches Some(t) ==> {
                &&& Some(t.spec_creation_datetime()) == chrono_utc_format(
                    creation.seconds,
                    creation.nanoseconds,
                    DATETIME_FORMAT@,
                )
                &&& t.spec_proof_token() == token_text(verification_token@)
            },
    {
        let creation_datetime = format_utc(creation, DATETIME_FORMAT)?;
        Some(VerificationEmailTemplate { creation_datetime, proof_token: verification_token.to_string() })
    }

    /// The time the code was created, as text.
    pub fn creation_datetime(&self) -> (r: &str)
        ensures
            r@ == self.spec_creation_datetime(),
    {
        self.creation_datetime.as_str()
    }

    /// The code.
    pub fn proof_token(&self) -> (r: &str)
        ensures
            r@ == self.spec_proof_token(),
    {
        self.proof_token.as_str()
    }
}

impl EmailTemplate for VerificationEmailTemplate {
    open spec fn spec_subject(&self) -> Seq<char> {
        "Your Verification Code: "@ + self.spec_proof_token()
    }

    fn subject(&self) -> (r: String) {
        let mut s = String::from_str("Your Verification Code: ");
        s.append(self.proof_token.as_str());
        s
    }
}

/// The text `lettre` gives for a mailbox it parses from `text`
/// (`text.parse::<Mailbox>()` written back with `Display`); `None` when it
/// refuses the text.
pub uninterp spec fn lettre_mailbox(text: Seq<char>) -> Option<Seq<char>>;

/// Trusted: parses `text` as a `lettre::message::Mailbox` and writes the
/// mailbox back with `to_string`. Parsing is deterministic in the text.
#[verifier::external_body]
fn parse_mailbox(text: &str) -> (r: Option<String>)
    ensures
        match r {
            Some(m) => lettre_mailbox(text@) == Some(m@),
            None => lettre_mailbox(text@) is None,
        },
{
    match text.parse::<lettre::message::Mailbox>() {
        Ok(mailbox) => Some(mailbox.to_string()),
        Err(_) => None,
    }
}

/// Who outgoing mail is from and where replies go.
pub struct Senders {
    pub from: String,
    pub reply_to: String,
}

/// Which configured mailbox could not be read.
#[derive(Debug, PartialEq, Eq, Structural)]
pub enum SenderError {
    From,
    ReplyTo,
}

/// Reads the configured sender and reply-to mailboxes; replies go to the
/// sender when no reply-to is configured.
pub fn senders(from: &str, replyto: Option<&str>) -> (r: Result<Senders, SenderError>)
    ensures
        lettre_mailbox(from@) is None ==> r == Err::<Senders, SenderError>(SenderError::From),
        match (lettre_mailbox(from@), replyto) {
            (Some(f), None) => r matches Ok(s) && s.from@ == f && s.reply_to@ == f,
            (Some(f), Some(t)) => match lettre_mailbox(t@) {
                Some(m) => r matches Ok(s) && s.from@ == f && s.reply_to@ == m,
                None => r == Err::<Senders, SenderError>(SenderError::ReplyTo),
            },
            (None, _) => true,
        },
{
    let from = match parse_mailbox(from) {
        Some(m) => m,
        None => return Err(SenderError::From),
    };
    match replyto {
        None => {
            let reply_to = from.clone();
            Ok(Senders { from, reply_to })
        },
        Some(t) => match parse_mailbox(t) {
            Some(reply_to) => Ok(Senders { from, reply_to }),
            None => Err(SenderError::ReplyTo),
        },
    }
}

} // verus!
