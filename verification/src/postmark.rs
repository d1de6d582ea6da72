//! Messages for the Postmark e-mail API, encoded as the JSON body it expects.

use vstd::prelude::*;
use vstd::string::StringExecFns;

use crate::util::json::{json_quote, json_string_literal};
use crate::util::time::{chrono_utc_format, format_utc, Timestamp};
use crate::util::hex::{hex_decode_spec, lemma_hex_encode_is_ascii, HexError};
use crate::util::verification_token::{lemma_token_text_roundtrip, token_text, VerificationToken, TOKEN_SIZE};
use vstd::utf8::encode_utf8;

verus! {

/// How a creation time is written in verification messages.
pub const DATETIME_FORMAT: &'static str = "%A, %B %e at %l:%M%p %Z";

/// The Postmark message stream a message is sent through.
#[derive(Debug, Clone, Copy, PartialEq, Eq, Structural)]
pub enum MessageStream {
    Broadcast,
    Inbound,
    Outbound,
    Verification,
}

impl MessageStream {
    /// The name Postmark knows the stream by.
    pub open spec fn spec_name(self) -> Seq<char> {
        match self {
            MessageStream::Broadcast => "broadcast"@,
            MessageStream::Inbound => "inbound"@,
            MessageStream::Outbound => "outbound"@,
            MessageStream::Verification => "verification"@,
        }
    }

    /// The name Postmark knows the stream by.
    pub fn name(&self) -> (r: &'static str)
        ensures
            r@ == self.spec_name(),
    {
        match self {
            MessageStream::Broadcast => "broadcast",
            MessageStream::Inbound => "inbound",
            MessageStream::Outbound => "outbound",
            MessageStream::Verification => "verification",
        }
    }
}

/// The token as it is shown to a user: its hex text with a space after the
/// first half.
pub open spec fn spaced_token_text(bytes: Seq<u8>) -> Seq<char> {
    token_text(bytes).take(TOKEN_SIZE as int) + seq![' '] + token_text(bytes).skip(TOKEN_SIZE as int)
}

/// The token's hex text with a space inserted after the first half.
pub fn spaced_token(token: &VerificationToken) -> (s: String)
    ensures
        s@ == spaced_token_text(token@),
{
    let text = token.to_string();
    let head = text.as_str().substring_ascii(0, TOKEN_SIZE);
    let tail = text.as_str().substring_ascii(TOKEN_SIZE, 2 * TOKEN_SIZE);
    let mut s = String::from_str(head);
    s.append(" ");
    s.append(tail);
    proof {
        reveal_strlit(" ");
    }
    assert(s@ =~= spaced_token_text(token@));
    s
}

/// The code as a user sees it in the mail, with its space taken out, reads
/// back as the token.
pub proof fn lemma_spaced_token_reads_back(bytes: Seq<u8>)
    requires
        bytes.len() == TOKEN_SIZE,
    ensures
        hex_decode_spec(encode_utf8(spaced_token_text(bytes).remove(TOKEN_SIZE as int)), TOKEN_SIZE as nat)
            == Ok::<Seq<u8>, HexError>(bytes),
{
    lemma_hex_encode_is_ascii(bytes);
    assert(spaced_token_text(bytes).remove(TOKEN_SIZE as int) =~= token_text(bytes));
    lemma_token_text_roundtrip(bytes);
}

/// The JSON members a kind of message adds to the request body.
pub trait Kind {
    /// The members, without the enclosing braces (`None` when one of its
    /// strings cannot be encoded).
    spec fn spec_members(&self) -> Option<Seq<char>>;

    /// The members, without the enclosing braces.
    fn members(&self) -> (r: Option<String>)
        ensures
            match r {
                Some(s) => self.spec_members() == Some(s@),
                None => self.spec_members() is None,
            },
    ;
}

/// A verification message: the template model Postmark fills in.
pub struct Verification {
    creation_datetime: String,
    proof_token: String,
}

/// The members a verification message adds, given its two model fields.
pub open spec fn verification_members(creation_datetime: Seq<char>, proof_token: Seq<char>) -> Seq<char> {
    "\"TemplateId\":37491390,\"TemplateModel\":{\"creation_datetime\":"@ + json_string_literal(creation_datetime)
        + ",\"proof_token\":"@ + json_string_literal(proof_token) + "}"@
}

impl Verification {
    pub closed spec fn spec_creation_datetime(&self) -> Seq<char> {
        self.creation_datetime@
    }

    pub closed spec fn spec_proof_token(&self) -> Seq<char> {
        self.proof_token@
    }

    /// The model for a token created at `creation`: the time written with
    /// [`DATETIME_FORMAT`] and the spaced token text. `None` when chrono
    /// cannot write that time.
    pub fn new(creation: Timestamp, token: VerificationToken) -> (r: Option<Verification>)
        ensures
            r is Some <==> chrono_utc_format(creation.seconds, creation.nanoseconds, DATETIME_FORMAT@) is Some,
            r matches Some(v) ==> {
                &&& Some(v.spec_creation_datetime()) == chrono_utc_format(
                    creation.seconds,
                    creation.nanoseconds,
                    DATETIME_FORMAT@,
                )
                &&& v.spec_proof_token() == spaced_token_text(token@)
            },
    {
        let creation_datetime = format_utc(creation, DATETIME_FORMAT)?;
        let proof_token = spaced_token(&token);
        Some(Verification { creation_datetime, proof_token })
    }

    /// The time the token was created, as text.
    pub fn creation_datetime(&self) -> (r: &str)
        ensures
            r@ == self.spec_creation_datetime(),
    {
        self.creation_datetime.as_str()
    }

    /// The token, as shown to the user.
    pub fn proof_token(&self) -> (r: &str)
        ensures
            r@ == self.spec_proof_token(),
    {
        self.proof_token.as_str()
    }
}

impl Kind for Verification {
    open spec fn spec_members(&self) -> Option<Seq<char>> {
        Some(verification_members(self.spec_creation_datetime(), self.spec_proof_token()))
    }

    fn members(&self) -> (r: Option<String>) {
        let c = json_quote(self.creation_datetime.as_str());
        let p = json_quote(self.proof_token.as_str());
        let mut s = String::from_str("\"TemplateId\":37491390,\"TemplateModel\":{\"creation_datetime\":");
        s.append(c.as_str());
        s.append(",\"proof_token\":");
        s.append(p.as_str());
        s.append("}");
        Some(s)
    }
}

/// The JSON body of a message, given its parts; `None` when the kind's
/// members cannot be encoded.
pub open spec fn transaction_json(
    stream: Seq<char>,
    from: Seq<char>,
    to: Seq<char>,
    track_opens: bool,
    members: Option<Seq<char>>,
) -> Option<Seq<char>> {
    match members {
        Some(m) => Some(
            "{\"MessageStream\":"@ + json_string_literal(stream) + ",\"From\":"@ + json_string_literal(from)
                + ",\"To\":"@ + json_string_literal(to) + ",\"TrackOpens\":"@
                + (if track_opens {
                "true"@
            } else {
                "false"@
            }) + ","@ + m + "}"@,
        ),
        None => None,
    }
}

/// One message to send through Postmark.
pub struct Transaction<'a, K> {
    message_stream: MessageStream,
    to: &'a str,
    track_opens: bool,
    kind: K,
}

impl<'a, K: Kind> Transaction<'a, K> {
    pub closed spec fn spec_message_stream(&self) -> MessageStream {
        self.message_stream
    }

    pub closed spec fn spec_to(&self) -> Seq<char> {
        self.to@
    }

    pub closed spec fn spec_track_opens(&self) -> bool {
        self.track_opens
    }

    pub closed spec fn spec_kind(&self) -> K {
        self.kind
    }

    /// A message to `to` on `message_stream`, with opens tracked.
    pub fn new(message_stream: MessageStream, to: &'a str, kind: K) -> (t: Self)
        ensures
            t.spec_message_stream() == message_stream,
            t.spec_to() == to@,
            t.spec_track_opens(),
            t.spec_kind() == kind,
    {
        Transaction { message_stream, to, track_opens: true, kind }
    }

    /// The stream the message goes through.
    pub fn message_stream(&self) -> (r: MessageStream)
        ensures
            r == self.spec_message_stream(),
    {
        self.message_stream
    }

    /// The recipient.
    pub fn to(&self) -> (r: &'a str)
        ensures
            r@ == self.spec_to(),
    {
        self.to
    }

    /// Whether opens are tracked.
    pub fn track_opens(&self) -> (r: bool)
        ensures
            r == self.spec_track_opens(),
    {
        self.track_opens
    }

    /// The message-specific part.
    pub fn kind(&self) -> (r: &K)
        ensures
            *r == self.spec_kind(),
    {
        &self.kind
    }

    /// The request body: stream, sender, recipient, tracking flag, then the
    /// kind's members, as one JSON object.
    pub fn to_json(&self, sender: &str) -> (r: Option<String>)
        ensures
            match r {
                Some(b) => transaction_json(
                    self.spec_message_stream().spec_name(),
                    sender@,
                    self.spec_to(),
                    self.spec_track_opens(),
                    self.spec_kind().spec_members(),
                ) == Some(b@),
                None => transaction_json(
                    self.spec_message_stream().spec_name(),
                    sender@,
                    self.spec_to(),
                    self.spec_track_opens(),
                    self.spec_kind().spec_members(),
                ) is None,
            },
    {
        let s = json_quote(self.message_stream.name());
        let f = json_quote(sender);
        let t = json_quote(self.to);
        let m = self.kind.members()?;
        let mut b = String::from_str("{\"MessageStream\":");
        b.append(s.as_str());
        b.append(",\"From\":");
        b.append(f.as_str());
        b.append(",\"To\":");
        b.append(t.as_str());
        b.append(",\"TrackOpens\":");
        if self.track_opens {
            b.append("true");
        } else {
            b.append("false");
        }
        b.append(",");
        b.append(m.as_str());
        b.append("}");
        Some(b)
    }
}

impl<'a> Transaction<'a, Verification> {
    /// A verification message for `to`, built from the token's creation time
    /// and the token. `None` when chrono cannot write that time.
    pub fn verification(to: &'a str, creation: Timestamp, proof_token: VerificationToken) -> (r: Option<Self>)
        ensures
            r is Some <==> chrono_utc_format(creation.seconds, creation.nanoseconds, DATETIME_FORMAT@) is Some,
            r matches Some(t) ==> {
                &&& t.spec_message_stream() == MessageStream::Verification
                &&& t.spec_to() == to@
                &&& t.spec_track_opens()
                &&& Some(t.spec_kind().spec_creation_datetime()) == chrono_utc_format(
                    creation.seconds,
                    creation.nanoseconds,
                    DATETIME_FORMAT@,
                )
                &&& t.spec_kind().spec_proof_token() == spaced_token_text(proof_token@)
            },
    {
        let kind = Verification::new(creation, proof_token)?;
        Some(Self::new(MessageStream::Verification, to, kind))
    }
}

/// Where messages built from a Postmark template are posted.
pub const SEND_ENDPOINT: &'static str = "https://api.postmarkapp.com/email/withTemplate";

/// Why sending a message failed.
#[derive(Debug)]
pub enum PostmarkError {
    /// The message could not be encoded as JSON.
    BodySerialization,
    /// The HTTP request failed; what the client reported.
    Http(String),
}

impl<'a, K: Kind> Transaction<'a, K> {
    /// The body posted to [`SEND_ENDPOINT`]; a message that cannot be
    /// encoded is refused with [`PostmarkError::BodySerialization`].
    pub fn request_body(&self, sender: &str) -> (r: Result<String, PostmarkError>)
        ensures
            match r {
                Ok(b) => transaction_json(
                    self.spec_message_stream().spec_name(),
                    sender@,
                    self.spec_to(),
                    self.spec_track_opens(),
                    self.spec_kind().spec_members(),
                ) == Some(b@),
                Err(e) => e is BodySerialization && transaction_json(
                    self.spec_message_stream().spec_name(),
                    sender@,
                    self.spec_to(),
                    self.spec_track_opens(),
                    self.spec_kind().spec_members(),
                ) is None,
            },
    {
        match self.to_json(sender) {
            Some(b) => Ok(b),
            None => Err(PostmarkError::BodySerialization),
        }
    }
}

/// The headers every request to Postmark carries: JSON both ways and the
/// server token.
pub fn default_headers(server_token: &str) -> (r: Vec<(&'static str, String)>)
    ensures
        r@.len() == 3,
        r@[0].0@ == "Accept"@ && r@[0].1@ == "application/json"@,
        r@[1].0@ == "Content-Type"@ && r@[1].1@ == "application/json"@,
        r@[2].0@ == "X-Postmark-Server-Token"@ && r@[2].1@ == server_token@,
{
    let mut r: Vec<(&'static str, String)> = Vec::new();
    r.push(("Accept", String::from_str("application/json")));
    r.push(("Content-Type", String::from_str("application/json")));
    r.push(("X-Postmark-Server-Token", String::from_str(server_token)));
    r
}

} // verus!
