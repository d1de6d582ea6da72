//! Configuration values and how the text of the environment is read into them.

use base64::Engine;
use vstd::prelude::*;
use vstd::string::{StringExecFns, StringSliceAdditionalSpecFns};

verus! {

/// A span of time, to the nanosecond.
#[derive(Debug, Clone, Copy, PartialEq, Eq, Structural)]
pub struct Duration {
    secs: u64,
    nanos: u32,
}

impl View for Duration {
    type V = int;

    /// The span in nanoseconds.
    closed spec fn view(&self) -> int {
        self.secs * 1_000_000_000 + self.nanos
    }
}

impl Duration {
    pub closed spec fn spec_secs(&self) -> u64 {
        self.secs
    }

    pub closed spec fn spec_subsec_nanos(&self) -> u32 {
        self.nanos
    }

    /// `secs` whole seconds.
    pub fn from_secs(secs: u64) -> (d: Duration)
        ensures
            d.spec_secs() == secs,
            d.spec_subsec_nanos() == 0,
            d@ == secs * 1_000_000_000,
    {
        Duration { secs, nanos: 0 }
    }

    /// `millis` milliseconds, split into whole seconds and the nanoseconds
    /// left over, as `std::time::Duration::from_millis` does.
    pub fn from_millis(millis: u64) -> (d: Duration)
        ensures
            d.spec_secs() == millis / 1000,
            d.spec_subsec_nanos() == (millis % 1000) * 1_000_000,
            d@ == millis * 1_000_000,
    {
        Duration { secs: millis / 1000, nanos: ((millis % 1000) as u32) * 1_000_000 }
    }

    /// Whole seconds.
    pub fn as_secs(&self) -> (r: u64)
        ensures
            r == self.spec_secs(),
    {
        self.secs
    }

    /// Nanoseconds beyond the whole seconds.
    pub fn subsec_nanos(&self) -> (r: u32)
        ensures
            r == self.spec_subsec_nanos(),
    {
        self.nanos
    }
}

/// Reads a configured number of milliseconds into a span.
pub struct MilsVisitor;

impl MilsVisitor {
    /// What the value is expected to be.
    pub fn expecting(&self) -> (r: &'static str)
        ensures
            r@ == "expected a duration (in seconds)"@,
    {
        "expected a duration (in seconds)"
    }

    /// The span of `v` milliseconds.
    pub fn visit_u64(&self, v: u64) -> (d: Duration)
        ensures
            d.spec_secs() == v / 1000,
            d.spec_subsec_nanos() == (v % 1000) * 1_000_000,
    {
        Duration::from_millis(v)
    }
}

/// Reads a configured number of seconds into a span.
pub struct SecsVisitor;

impl SecsVisitor {
    /// What the value is expected to be.
    pub fn expecting(&self) -> (r: &'static str)
        ensures
            r@ == "expected a duration (in seconds)"@,
    {
        "expected a duration (in seconds)"
    }

    /// The span of `v` seconds.
    pub fn visit_u64(&self, v: u64) -> (d: Duration)
        ensures
            d.spec_secs() == v,
            d.spec_subsec_nanos() == 0,
    {
        Duration::from_secs(v)
    }
}

/// The network timeout setting: the configured number is visited by
/// [`SecsVisitor`], so it is read as seconds.
pub fn mils(value: u64) -> (d: Duration)
    ensures
        d.spec_secs() == value,
        d.spec_subsec_nanos() == 0,
{
    SecsVisitor.visit_u64(value)
}

/// The session lifetime setting, read as seconds.
pub fn secs(value: u64) -> (d: Duration)
    ensures
        d.spec_secs() == value,
        d.spec_subsec_nanos() == 0,
{
    SecsVisitor.visit_u64(value)
}

/// Number of bytes in a session signing key.
pub const KEY_LEN: usize = 64;

/// What decoding `input` with the standard, padded base64 alphabet gives;
/// `None` when it is not such base64.
pub uninterp spec fn base64_standard_decode(input: Seq<u8>) -> Option<Seq<u8>>;

/// The `Debug` text of the error `BASE64_STANDARD.decode_slice` reports for
/// `input` and an output of `capacity` bytes (which byte is invalid, a bad
/// length or padding, or an output too small): a function of the two alone.
pub uninterp spec fn base64_decode_slice_error(input: Seq<u8>, capacity: usize) -> Seq<char>;

/// Trusted: `BASE64_STANDARD.decode_slice` into a zeroed buffer of
/// `capacity` bytes. Per its documentation it succeeds when the input is
/// valid and its decoded bytes fit, writes exactly those bytes at the front
/// and nothing past them. On failure it gives the error's `Debug` text.
#[verifier::external_body]
fn base64_decode_slice(input: &str, capacity: usize) -> (r: Result<(Vec<u8>, usize), String>)
    ensures
        r matches Err(detail) ==> detail@ == base64_decode_slice_error(input.spec_bytes(), capacity),
        r is Ok <==> (base64_standard_decode(input.spec_bytes()) matches Some(d) && d.len() <= capacity),
        r matches Ok((buf, n)) ==> {
            &&& base64_standard_decode(input.spec_bytes()) == Some(buf@.take(n as int))
            &&& buf@.len() == capacity
            &&& n <= capacity
            &&& forall|i: int| n <= i < capacity ==> buf@[i] == 0
        },
{
    let mut buf = vec![0u8; capacity];
    match base64::prelude::BASE64_STANDARD.decode_slice(input, &mut buf) {
        Ok(n) => Ok((buf, n)),
        Err(e) => Err(format!("{e:?}")),
    }
}

/// The 64 bytes a session cookie is signed with.
pub struct SessionKey(Vec<u8>);

impl View for SessionKey {
    type V = Seq<u8>;

    closed spec fn view(&self) -> Seq<u8> {
        self.0@
    }
}

impl SessionKey {
    /// The key's bytes.
    pub fn as_bytes(&self) -> (r: &[u8])
        ensures
            r@ == self@,
    {
        self.0.as_slice()
    }
}

/// The key material a base64 setting stands for: its decoded bytes followed
/// by zeros up to [`KEY_LEN`] bytes.
pub open spec fn key_material(decoded: Seq<u8>) -> Seq<u8> {
    decoded + Seq::new((KEY_LEN - decoded.len()) as nat, |i: int| 0u8)
}

/// Why the key setting could not be read.
#[derive(Debug)]
pub struct KeyError {
    /// The setting as given.
    pub input: String,
    /// What the decoder reported.
    pub detail: String,
}

impl KeyError {
    /// The message the setting is refused with: that the input could not be
    /// decoded, the input in quotes, and what the decoder reported.
    pub fn message(&self) -> (r: String)
        ensures
            r@ == "could not decode \""@ + self.input@ + "\": "@ + self.detail@,
    {
        let mut r = String::from_str("could not decode \"");
        r.append(self.input.as_str());
        r.append("\": ");
        r.append(self.detail.as_str());
        r
    }
}

/// Reads the session key setting.
pub struct KeyVisitor;

impl KeyVisitor {
    /// What the value is expected to be.
    pub fn expecting(&self) -> (r: &'static str)
        ensures
            r@ == "expected a valid BASE64 string"@,
    {
        "expected a valid BASE64 string"
    }

    /// Decodes base64 text into a 64-byte key; shorter keys are padded with
    /// zeros, longer ones and invalid text are refused.
    pub fn visit_str(&self, v: &str) -> (r: Result<SessionKey, KeyError>)
        ensures
            r is Ok <==> (base64_standard_decode(v.spec_bytes()) matches Some(d) && d.len() <= KEY_LEN),
            r matches Ok(k) ==> k@ == key_material(base64_standard_decode(v.spec_bytes()).unwrap()),
            r matches Err(e) ==> e.input@ == v@ && e.detail@ == base64_decode_slice_error(v.spec_bytes(), KEY_LEN),
    {
        match base64_decode_slice(v, KEY_LEN) {
            Ok((buf, n)) => {
                proof {
                    let d = buf@.take(n as int);
                    assert(buf@ =~= key_material(d));
                }
                Ok(SessionKey(buf))
            },
            Err(detail) => Err(KeyError { input: v.to_string(), detail }),
        }
    }
}

/// The session key setting, decoded.
pub fn key(value: &str) -> (r: Result<SessionKey, KeyError>)
    ensures
        r is Ok <==> (base64_standard_decode(value.spec_bytes()) matches Some(d) && d.len() <= KEY_LEN),
        r matches Ok(k) ==> k@ == key_material(base64_standard_decode(value.spec_bytes()).unwrap()),
        r matches Err(e) ==> e.input@ == value@ && e.detail@ == base64_decode_slice_error(value.spec_bytes(), KEY_LEN),
{
    KeyVisitor.visit_str(value)
}

/// Where the database is and how many connections to keep.
pub struct Database {
    pub url: String,
    pub pool: Pool,
}

/// Size of the database connection pool.
pub struct Pool {
    pub size: u32,
}

/// The session store and how sessions are signed and expire.
pub struct Session {
    pub url: String,
    pub namespace: Option<u32>,
    pub lifetime: Duration,
    pub key: SessionKey,
}

/// The mail server mail is sent through.
pub struct Smtp {
    pub user: String,
    pub pass: String,
    pub host: String,
    pub port: u16,
    pub from: String,
    pub replyto: Option<String>,
}

/// Logging settings.
pub struct Log {
    pub level: Option<String>,
}

} // verus!
