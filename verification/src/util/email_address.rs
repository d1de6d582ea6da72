use vstd::prelude::*;

verus! {

/// The pattern an e-mail address has to match. It is anchored at both
/// ends, so `Regex::is_match` accepts only a text that is, as a whole, a
/// well-formatted address.
pub const EMAIL_ADDRESS_PATTERN: &'static str = r#"^(?:(?:[a-z0-9!#$%&'*+/=?^_`{|}~-]+(?:\.[a-z0-9!#$%&'*+/=?^_`{|}~-]+)*|"(?:[\x01-\x08\x0b\x0c\x0e-\x1f\x21\x23-\x5b\x5d-\x7f]|\\[\x01-\x09\x0b\x0c\x0e-\x7f])*")@(?:(?:[a-z0-9](?:[a-z0-9-]*[a-z0-9])?\.)+[a-z0-9](?:[a-z0-9-]*[a-z0-9])?|\[(?:(?:25[0-5]|2[0-4][0-9]|[01]?[0-9][0-9]?)\.){3}(?:25[0-5]|2[0-4][0-9]|[01]?[0-9][0-9]?|[a-z0-9-]*[a-z0-9]:(?:[\x01-\x08\x0b\x0c\x0e-\x1f\x21-\x5a\x53-\x7f]|\\[\x01-\x09\x0b\x0c\x0e-\x7f])+)\]))$"#;

/// What compiling `pattern` with `regex::Regex::new` and then searching
/// `haystack` with `Regex::is_match` gives: `None` when the pattern does not
/// compile, otherwise whether a match occurs anywhere in `haystack`.
pub uninterp spec fn regex_search(pattern: Seq<char>, haystack: Seq<char>) -> Option<bool>;

/// Trusted: compiles `pattern` with `regex::Regex::new` and, when that
/// succeeds, reports `Regex::is_match(haystack)`. Both calls are
/// deterministic in their arguments; the contract only names the result.
#[verifier::external_body]
fn regex_is_match(pattern: &str, haystack: &str) -> (r: Option<bool>)
    ensures
        r == regex_search(pattern@, haystack@),
{
    match regex::Regex::new(pattern) {
        Ok(re) => Some(re.is_match(haystack)),
        Err(_) => None,
    }
}

/// Whether `s` is accepted as an e-mail address: the whole text matches
/// the address pattern.
pub open spec fn is_valid_email_address(s: Seq<char>) -> bool {
    regex_search(EMAIL_ADDRESS_PATTERN@, s) == Some(true)
}

/// An e-mail address that matched [`EMAIL_ADDRESS_PATTERN`].
#[derive(Debug, PartialEq, Eq)]
pub struct EmailAddress(String);

impl View for EmailAddress {
    type V = Seq<char>;

    closed spec fn view(&self) -> Seq<char> {
        self.0@
    }
}

impl EmailAddress {
    /// Every address is one the pattern accepts.
    #[verifier::type_invariant]
    spec fn is_valid(self) -> bool {
        is_valid_email_address(self.0@)
    }

    /// Accepts `email_address` when it matches the e-mail pattern and hands
    /// it back unchanged as the error otherwise.
    pub fn new(email_address: String) -> (r: Result<EmailAddress, String>)
        ensures
            r is Ok <==> is_valid_email_address(email_address@),
            r matches Ok(e) ==> e@ == email_address@,
            r matches Err(s) ==> s@ == email_address@,
    {
        match regex_is_match(EMAIL_ADDRESS_PATTERN, email_address.as_str()) {
            Some(true) => Ok(EmailAddress(email_address)),
            _ => Err(email_address),
        }
    }

    /// The address as text; it is always a valid address.
    pub fn as_str(&self) -> (r: &str)
        ensures
            r@ == self@,
            is_valid_email_address(self@),
    {
        proof {
            use_type_invariant(self);
        }
        self.0.as_str()
    }
}

impl From<EmailAddress> for String {
    fn from(value: EmailAddress) -> (r: String)
        ensures
            r@ == value@,
            is_valid_email_address(r@),
    {
        proof {
            use_type_invariant(&value);
        }
        value.0
    }
}

impl vstd::std_specs::convert::FromSpecImpl<EmailAddress> for String {
    open spec fn obeys_from_spec() -> bool {
        true
    }

    closed spec fn from_spec(v: EmailAddress) -> String {
        v.0
    }
}

impl Clone for EmailAddress {
    fn clone(&self) -> (r: EmailAddress)
        ensures
            r@ == self@,
    {
        proof {
            use_type_invariant(self);
        }
        EmailAddress(self.0.clone())
    }
}

} // verus!
