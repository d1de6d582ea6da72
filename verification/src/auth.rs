//! Accounts and sign-in: roles, password hashing, and the decisions the
//! register, login and logout handlers take.

use vstd::prelude::*;
use vstd::string::{StringExecFns, StringSliceAdditionalSpecFns};

use argon2::PasswordHasher;

use crate::db::{is_violation, violates, DbFailure, UNIQUE_VIOLATION};
use crate::responses::{email_in_use, internal_error, is_reply, Reply};
use crate::util::email_address::is_valid_email_address;
use crate::util::EmailAddress;

verus! {

/// What a user may do.
#[derive(Debug, Clone, Copy, PartialEq, Eq, Structural)]
pub enum Role {
    Admin,
    Regular,
}

impl Role {
    /// The number a role is stored as.
    pub open spec fn spec_code(self) -> i16 {
        match self {
            Role::Admin => 0,
            Role::Regular => 100,
        }
    }

    /// The role a stored number stands for; unknown numbers read as `Regular`.
    pub open spec fn spec_from_code(code: i16) -> Role {
        if code == 0 {
            Role::Admin
        } else {
            Role::Regular
        }
    }

    /// The name a role is written as in JSON and forms.
    pub open spec fn spec_name(self) -> Seq<char> {
        match self {
            Role::Admin => "ADMIN"@,
            Role::Regular => "REGULAR"@,
        }
    }

    /// The number a role is stored as.
    pub fn code(self) -> (r: i16)
        ensures
            r == self.spec_code(),
    {
        match self {
            Role::Admin => 0,
            Role::Regular => 100,
        }
    }

    /// The role a stored number stands for; unknown numbers read as `Regular`.
    pub fn from_code(code: i16) -> (r: Role)
        ensures
            r == Role::spec_from_code(code),
    {
        if code == 0 {
            Role::Admin
        } else {
            Role::Regular
        }
    }

    /// The name a role is written as.
    pub fn name(self) -> (r: &'static str)
        ensures
            r@ == self.spec_name(),
    {
        match self {
            Role::Admin => "ADMIN",
            Role::Regular => "REGULAR",
        }
    }

    /// The role written as `name`, if any.
    pub open spec fn spec_from_name(name: Seq<char>) -> Option<Role> {
        if name == "ADMIN"@ {
            Some(Role::Admin)
        } else if name == "REGULAR"@ {
            Some(Role::Regular)
        } else {
            None
        }
    }

    /// The role written as `name`, if any; names are upper case.
    pub fn from_name(name: &str) -> (r: Option<Role>)
        ensures
            r == Role::spec_from_name(name@),
    {
        let name = String::from_str(name);
        if name == String::from_str("ADMIN") {
            Some(Role::Admin)
        } else if name == String::from_str("REGULAR") {
            Some(Role::Regular)
        } else {
            None
        }
    }
}

impl Default for Role {
    fn default() -> (r: Role)
        ensures
            r == Role::Regular,
    {
        Role::Regular
    }
}

impl From<Role> for i16 {
    fn from(role: Role) -> (r: i16) {
        role.code()
    }
}

impl vstd::std_specs::convert::FromSpecImpl<Role> for i16 {
    open spec fn obeys_from_spec() -> bool {
        true
    }

    open spec fn from_spec(v: Role) -> i16 {
        v.spec_code()
    }
}

/// A stored role number read back gives the role.
pub proof fn lemma_role_code_roundtrip(role: Role)
    ensures
        Role::spec_from_code(role.spec_code()) == role,
{
}

/// Every stored number other than the administrators' reads as `Regular`.
pub proof fn lemma_role_unknown_code(code: i16)
    requires
        code != 0,
    ensures
        Role::spec_from_code(code) == Role::Regular,
{
}

/// A role's written name read back gives the role.
pub proof fn lemma_role_name_roundtrip(role: Role)
    ensures
        Role::spec_from_name(role.spec_name()) == Some(role),
{
    reveal_strlit("ADMIN");
    reveal_strlit("REGULAR");
    assert("ADMIN"@[0] != "REGULAR"@[0]);
}

/// The e-mail address and password a user signs up or in with.
pub struct AuthInfo {
    pub email_address: EmailAddress,
    pub password: String,
}

/// The PHC string `argon2` gives for `password` under the salt whose B64
/// text is `salt`: `SaltString::from_b64(salt)` followed by
/// `Argon2::default().hash_password(password, &salt)` and `serialize`;
/// `None` when the salt is refused or hashing fails.
pub uninterp spec fn argon2_phc_hash(password: Seq<u8>, salt: Seq<char>) -> Option<Seq<char>>;

#[verifier::external_type_specification]
#[verifier::external_body]
pub struct ExPasswordHashError(argon2::password_hash::Error);

/// Trusted: parses the salt with `SaltString::from_b64`, hashes with
/// `Argon2::default().hash_password` and serialises the result as a PHC
/// string. Argon2 with fixed parameters is deterministic, so the result is
/// named as a function of the password and salt.
#[verifier::external_body]
fn argon2_hash(password: &[u8], salt: &str) -> (r: Result<String, argon2::password_hash::Error>)
    ensures
        match r {
            Ok(h) => argon2_phc_hash(password@, salt@) == Some(h@),
            Err(_) => argon2_phc_hash(password@, salt@) is None,
        },
{
    let salt = argon2::password_hash::SaltString::from_b64(salt)?;
    let hash = argon2::Argon2::default().hash_password(password, &salt)?;
    Ok(hash.serialize().as_str().to_string())
}

/// Trusted: `SaltString::generate` with the operating system's random
/// generator, as B64 text. Nothing is stated of the salt: it is random.
#[verifier::external_body]
fn generate_salt() -> (r: String) {
    argon2::password_hash::SaltString::generate(&mut argon2::password_hash::rand_core::OsRng).as_str().to_string()
}

/// What the database holds to check a user's password.
pub struct StoredCredentials {
    pub user_id: u128,
    pub password_salt: String,
    pub password_hash: String,
}

/// Why a login was refused.
#[derive(Debug)]
pub enum LoginError {
    /// The session already belongs to a signed-in user.
    AlreadyLoggedIn,
    /// No user has that address, or the password is wrong.
    InvalidLogin,
    /// The database failed.
    Database(DbFailure),
    /// The stored salt could not be used or hashing failed.
    PasswordHashing(argon2::password_hash::Error),
    /// The session store failed.
    Session(String),
}

impl LoginError {
    /// The error a failed user lookup becomes: an unknown address is an
    /// invalid login, anything else a database failure.
    pub fn from_db(f: DbFailure) -> (r: LoginError)
        ensures
            (f is RowNotFound) ==> (r is InvalidLogin),
            !(f is RowNotFound) ==> r == LoginError::Database(f),
    {
        if f.is_row_not_found() {
            LoginError::InvalidLogin
        } else {
            LoginError::Database(f)
        }
    }

    /// The HTTP status the error is answered with.
    pub open spec fn spec_status(&self) -> u16 {
        match self {
            LoginError::AlreadyLoggedIn => 409,
            LoginError::InvalidLogin => 401,
            _ => 500,
        }
    }

    /// The HTTP status the error is answered with: 409 when already signed
    /// in, 401 for bad credentials, 500 otherwise.
    pub fn status(&self) -> (r: u16)
        ensures
            r == self.spec_status(),
    {
        match self {
            LoginError::AlreadyLoggedIn => 409,
            LoginError::InvalidLogin => 401,
            _ => 500,
        }
    }

    /// The error's text: fixed for refused logins and hashing, the
    /// database's or session store's own text otherwise.
    pub open spec fn spec_message(&self) -> Seq<char> {
        match self {
            LoginError::AlreadyLoggedIn => "user already logged in"@,
            LoginError::InvalidLogin => "invalid email & password combination"@,
            LoginError::Database(f) => f.spec_text(),
            LoginError::PasswordHashing(_) => "failed to hash password"@,
            LoginError::Session(m) => m@,
        }
    }

    /// The error's text (see [`LoginError::spec_message`]).
    pub fn message(&self) -> (r: String)
        ensures
            r@ == self.spec_message(),
    {
        match self {
            LoginError::AlreadyLoggedIn => String::from_str("user already logged in"),
            LoginError::InvalidLogin => String::from_str("invalid email & password combination"),
            LoginError::Database(f) => f.text(),
            LoginError::PasswordHashing(_) => String::from_str("failed to hash password"),
            LoginError::Session(m) => m.clone(),
        }
    }

    /// The answer of the form login: the error's status with its text.
    pub fn reply(&self) -> (r: Reply)
        ensures
            is_reply(r, self.spec_status(), None, self.spec_message()),
    {
        Reply::owned(self.status(), self.message())
    }

    /// The answer of the JSON login: the error's status with no text.
    pub fn bare_reply(&self) -> (r: Reply)
        ensures
            is_reply(r, self.spec_status(), None, Seq::empty()),
    {
        Reply::owned(self.status(), String::new())
    }
}

/// First step of a login: a session that already holds a user is refused.
pub fn begin_login(session_is_empty: bool) -> (r: Result<(), LoginError>)
    ensures
        r is Ok <==> session_is_empty,
        r matches Err(e) ==> e is AlreadyLoggedIn,
{
    if session_is_empty {
        Ok(())
    } else {
        Err(LoginError::AlreadyLoggedIn)
    }
}

/// Whether `password` hashes, under `salt`, to `hash`.
pub open spec fn password_matches(password: Seq<u8>, salt: Seq<char>, hash: Seq<char>) -> bool {
    argon2_phc_hash(password, salt) == Some(hash)
}

/// Checks `password` against stored credentials: the password is hashed
/// with the stored salt and must give the stored hash.
pub fn check_password(stored: &StoredCredentials, password: &[u8]) -> (r: Result<u128, LoginError>)
    ensures
        r is Ok <==> password_matches(password@, stored.password_salt@, stored.password_hash@),
        r matches Ok(id) ==> id == stored.user_id,
        r matches Err(e) ==> (e is InvalidLogin || e is PasswordHashing),
        r matches Err(e) ==> (e is PasswordHashing <==> argon2_phc_hash(password@, stored.password_salt@) is None),
{
    match argon2_hash(password, stored.password_salt.as_str()) {
        Ok(calculated) => {
            if calculated == stored.password_hash {
                Ok(stored.user_id)
            } else {
                Err(LoginError::InvalidLogin)
            }
        },
        Err(e) => Err(LoginError::PasswordHashing(e)),
    }
}

/// Second step of a login, given the outcome of looking the address up:
/// the user's id when the password is right.
pub fn finish_login(lookup: Result<StoredCredentials, DbFailure>, password: &[u8]) -> (r: Result<u128, LoginError>)
    ensures
        match lookup {
            Ok(stored) => {
                &&& (r is Ok <==> password_matches(password@, stored.password_salt@, stored.password_hash@))
                &&& (r matches Ok(id) ==> id == stored.user_id)
                &&& (r matches Err(e) ==> (e is InvalidLogin || e is PasswordHashing))
                &&& (r matches Err(e) ==> (e is PasswordHashing <==> argon2_phc_hash(password@, stored.password_salt@) is None))
            },
            Err(f) => {
                &&& (f is RowNotFound) ==> (r matches Err(e) && e is InvalidLogin)
                &&& !(f is RowNotFound) ==> r == Err::<u128, LoginError>(LoginError::Database(f))
            },
        },
{
    match lookup {
        Ok(stored) => check_password(&stored, password),
        Err(f) => Err(LoginError::from_db(f)),
    }
}

/// Why a registration was refused.
#[derive(Debug)]
pub enum RegisterError {
    /// The address given is longer than the store takes.
    EmailAddressLength,
    /// The address given is not an e-mail address.
    EmailAddressFormat,
    /// The display name given is longer than the store takes.
    DisplayNameLength,
    /// Another user already has the address.
    DuplicateEmail,
    /// Hashing the password failed.
    PasswordHashing(argon2::password_hash::Error),
    /// The database failed.
    Database(DbFailure),
}

/// The constraint that keeps addresses unique among users.
pub const USERS_EMAIL_KEY: &'static str = "users_email_key";

impl RegisterError {
    /// The error a failed insert becomes: a unique violation on the
    /// users' address is a duplicate address, anything else a database failure.
    pub fn from_db(f: DbFailure) -> (r: RegisterError)
        ensures
            is_violation(f, UNIQUE_VIOLATION@, USERS_EMAIL_KEY@) ==> (r is DuplicateEmail),
            !is_violation(f, UNIQUE_VIOLATION@, USERS_EMAIL_KEY@) ==> r == RegisterError::Database(f),
    {
        if violates(&f, UNIQUE_VIOLATION, USERS_EMAIL_KEY) {
            RegisterError::DuplicateEmail
        } else {
            RegisterError::Database(f)
        }
    }

    /// The HTTP status the error is answered with.
    pub open spec fn spec_status(&self) -> u16 {
        match self {
            RegisterError::EmailAddressLength => 400,
            RegisterError::EmailAddressFormat => 400,
            RegisterError::DisplayNameLength => 400,
            RegisterError::DuplicateEmail => 409,
            _ => 500,
        }
    }

    /// The HTTP status the error is answered with: 400 for a field that is
    /// too long or malformed, 409 for a taken address, 500 otherwise.
    pub fn status(&self) -> (r: u16)
        ensures
            r == self.spec_status(),
    {
        match self {
            RegisterError::EmailAddressLength => 400,
            RegisterError::EmailAddressFormat => 400,
            RegisterError::DisplayNameLength => 400,
            RegisterError::DuplicateEmail => 409,
            _ => 500,
        }
    }

    /// The error's text.
    pub open spec fn spec_message(&self) -> Seq<char> {
        match self {
            RegisterError::EmailAddressLength => "Email address is too long."@,
            RegisterError::EmailAddressFormat => "Email address is invalid."@,
            RegisterError::DisplayNameLength => "Display name is too long."@,
            RegisterError::DuplicateEmail => "user already exists"@,
            RegisterError::PasswordHashing(_) => "failed to hash password"@,
            RegisterError::Database(f) => f.spec_text(),
        }
    }

    /// The error's text (see [`RegisterError::spec_message`]).
    pub fn message(&self) -> (r: String)
        ensures
            r@ == self.spec_message(),
    {
        match self {
            RegisterError::EmailAddressLength => String::from_str("Email address is too long."),
            RegisterError::EmailAddressFormat => String::from_str("Email address is invalid."),
            RegisterError::DisplayNameLength => String::from_str("Display name is too long."),
            RegisterError::DuplicateEmail => String::from_str("user already exists"),
            RegisterError::PasswordHashing(_) => String::from_str("failed to hash password"),
            RegisterError::Database(f) => f.text(),
        }
    }

    /// The answer of the sign-up form handler: the error's status with its text.
    pub fn reply(&self) -> (r: Reply)
        ensures
            is_reply(r, self.spec_status(), None, self.spec_message()),
    {
        Reply::owned(self.status(), self.message())
    }

    /// The answer of the plain sign-up endpoint: a taken address is
    /// "Email already in use." (409), anything else the 500 that asks the
    /// user to contact support.
    pub fn plain_reply(&self) -> (r: Reply)
        ensures
            self is DuplicateEmail ==> is_reply(r, 409, None, "Email already in use."@),
            !(self is DuplicateEmail) ==> is_reply(
                r,
                500,
                None,
                "Internal server error; please contact: support@uledger.me"@,
            ),
    {
        match self {
            RegisterError::DuplicateEmail => email_in_use(),
            _ => internal_error(),
        }
    }
}

/// The row a registration inserts.
pub struct NewUser {
    pub role: i16,
    pub email_address: String,
    pub password_salt: String,
    pub password_hash: String,
    pub display_name: Option<String>,
}

/// Builds the row for a new regular user whose password is hashed with `salt`.
pub fn register_with_salt(
    email_address: &EmailAddress,
    password: &str,
    display_name: Option<String>,
    salt: String,
) -> (r: Result<NewUser, RegisterError>)
    ensures
        r is Ok <==> argon2_phc_hash(password.spec_bytes(), salt@) is Some,
        r matches Ok(u) ==> {
            &&& u.role == Role::Regular.spec_code()
            &&& u.email_address@ == email_address@
            &&& u.password_salt@ == salt@
            &&& argon2_phc_hash(password.spec_bytes(), salt@) == Some(u.password_hash@)
            &&& u.display_name == display_name
        },
        r matches Err(e) ==> e is PasswordHashing,
{
    match argon2_hash(password.as_bytes(), salt.as_str()) {
        Ok(hash) => Ok(
            NewUser {
                role: Role::Regular.code(),
                email_address: String::from_str(email_address.as_str()),
                password_salt: salt,
                password_hash: hash,
                display_name,
            },
        ),
        Err(e) => Err(RegisterError::PasswordHashing(e)),
    }
}

/// Builds the row for a new regular user, with a freshly generated salt.
pub fn register(email_address: &EmailAddress, password: &str, display_name: Option<String>) -> (r: Result<NewUser, RegisterError>)
    ensures
        r matches Ok(u) ==> {
            &&& u.role == Role::Regular.spec_code()
            &&& u.email_address@ == email_address@
            &&& argon2_phc_hash(password.spec_bytes(), u.password_salt@) == Some(u.password_hash@)
            &&& u.display_name == display_name
        },
        r matches Err(e) ==> e is PasswordHashing,
{
    register_with_salt(email_address, password, display_name, generate_salt())
}

/// Builds the row for a new regular user from a sign-up form: the address
/// must be an e-mail address, then the password is hashed with a fresh salt.
pub fn register_form(email_address: String, password: &str, display_name: String) -> (r: Result<NewUser, RegisterError>)
    ensures
        !is_valid_email_address(email_address@) ==> (r matches Err(e) && e is EmailAddressFormat),
        r matches Ok(u) ==> {
            &&& is_valid_email_address(email_address@)
            &&& u.role == Role::Regular.spec_code()
            &&& u.email_address@ == email_address@
            &&& argon2_phc_hash(password.spec_bytes(), u.password_salt@) == Some(u.password_hash@)
            &&& u.display_name == Some(display_name)
        },
        r matches Err(e) ==> (e is EmailAddressFormat <==> !is_valid_email_address(email_address@)),
        r matches Err(e) ==> (e is EmailAddressFormat || e is PasswordHashing),
{
    match EmailAddress::new(email_address) {
        Ok(address) => register(&address, password, Some(display_name)),
        Err(_) => Err(RegisterError::EmailAddressFormat),
    }
}

/// A user registered with a password can log in with that same password:
/// the stored hash is exactly what checking that password computes.
pub proof fn lemma_registered_password_logs_in(password: Seq<u8>, salt: Seq<char>, hash: Seq<char>)
    requires
        argon2_phc_hash(password, salt) == Some(hash),
    ensures
        password_matches(password, salt, hash),
{
}

/// Why a logout failed.
#[derive(Debug)]
pub enum LogoutError {
    /// The session store failed.
    Session(String),
}

impl LogoutError {
    /// Always answered with 500.
    pub fn status(&self) -> (r: u16)
        ensures
            r == 500,
    {
        500
    }

    /// The answer: 500 with "internal server error".
    pub fn reply(&self) -> (r: Reply)
        ensures
            is_reply(r, 500, None, "internal server error"@),
    {
        Reply::text(500, "internal server error")
    }
}

} // verus!
