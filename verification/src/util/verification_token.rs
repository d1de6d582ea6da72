use vstd::prelude::*;
use vstd::string::StringSliceAdditionalSpecFns;

use super::hex::{
    ascii_lowercase, hex_decode, hex_decode_spec, hex_encode, hex_encode_spec,
    lemma_hex_encode_is_ascii, lemma_hex_reencode_lowercases, lemma_hex_roundtrip, HexError,
};

verus! {

/// Number of random bytes in a verification token.
pub const TOKEN_SIZE: usize = 3;

/// Trusted: `rand::random` for a three-byte array. Nothing is stated of
/// the bytes: they come from the thread-local random generator.
#[verifier::external_body]
fn random_token_bytes() -> [u8; TOKEN_SIZE] {
    rand::random()
}

/// A short random code mailed to a user to prove they own an address.
pub struct VerificationToken([u8; TOKEN_SIZE]);

impl View for VerificationToken {
    type V = Seq<u8>;

    closed spec fn view(&self) -> Seq<u8> {
        self.0@
    }
}

/// The text of a token: its bytes as lowercase hex.
pub open spec fn token_text(bytes: Seq<u8>) -> Seq<char> {
    hex_encode_spec(bytes)
}

impl VerificationToken {
    /// Number of bytes in a token.
    pub const SIZE: usize = 3;

    /// The token's bytes always number [`TOKEN_SIZE`].
    pub proof fn lemma_len(&self)
        ensures
            self@.len() == TOKEN_SIZE,
    {
    }

    /// Draws a fresh random token.
    pub fn gen() -> (t: VerificationToken)
        ensures
            t@.len() == TOKEN_SIZE,
    {
        VerificationToken(random_token_bytes())
    }

    /// A token with the given bytes.
    pub fn from_bytes(bytes: [u8; TOKEN_SIZE]) -> (t: VerificationToken)
        ensures
            t@ == bytes@,
    {
        VerificationToken(bytes)
    }

    /// The token's bytes.
    pub fn bytes(&self) -> (b: [u8; TOKEN_SIZE])
        ensures
            b@ == self@,
    {
        self.0
    }

    /// Reads a token from its hex text (either letter case), as
    /// `hex::decode_to_slice` into a three-byte buffer does.
    pub fn from_str(value: &str) -> (r: Result<VerificationToken, HexError>)
        ensures
            match r {
                Ok(t) => hex_decode_spec(value.spec_bytes(), TOKEN_SIZE as nat) == Ok::<Seq<u8>, HexError>(t@),
                Err(e) => hex_decode_spec(value.spec_bytes(), TOKEN_SIZE as nat) == Err::<Seq<u8>, HexError>(e),
            },
    {
        match hex_decode(value, TOKEN_SIZE) {
            Ok(v) => {
                assert(v@.len() == TOKEN_SIZE);
                let t = VerificationToken([v[0], v[1], v[2]]);
                assert(t@ =~= v@);
                Ok(t)
            },
            Err(e) => Err(e),
        }
    }

    /// The token as lowercase hex text, two digits per byte.
    pub fn to_string(&self) -> (s: String)
        ensures
            s@ == token_text(self@),
            s@.len() == 2 * TOKEN_SIZE,
            vstd::utf8::is_ascii_chars(s@),
    {
        proof {
            lemma_hex_encode_is_ascii(self@);
        }
        hex_encode(self.0.as_slice())
    }
}

/// Reading back the text of a token gives the same token.
pub proof fn lemma_token_text_roundtrip(bytes: Seq<u8>)
    requires
        bytes.len() == TOKEN_SIZE,
    ensures
        hex_decode_spec(vstd::utf8::encode_utf8(token_text(bytes)), TOKEN_SIZE as nat)
            == Ok::<Seq<u8>, HexError>(bytes),
{
    lemma_hex_roundtrip(bytes);
}

/// A token read from a text writes back as that text in lower case: the
/// text is six hex digits and `to_string` gives them lowercased.
pub proof fn lemma_token_text_is_lowercased_input(input: Seq<u8>, bytes: Seq<u8>)
    requires
        hex_decode_spec(input, TOKEN_SIZE as nat) == Ok::<Seq<u8>, HexError>(bytes),
    ensures
        token_text(bytes) == Seq::new(input.len(), |i: int| ascii_lowercase(input[i]) as char),
        input.len() == 2 * TOKEN_SIZE,
{
    lemma_hex_reencode_lowercases(input, TOKEN_SIZE as nat);
}

} // verus!
