use uledger::auth::{
    check_password, finish_login, register_form, register_with_salt, LoginError, RegisterError, Role,
    StoredCredentials,
};
use uledger::db::DbFailure;
use uledger::util::hex::HexError;
use uledger::util::{EmailAddress, VerificationToken};

#[test]
fn email_address_accepts_plain_address() {
    let address = EmailAddress::new("jane.doe@example.com".to_string()).unwrap();
    assert_eq!(address.as_str(), "jane.doe@example.com");
}

#[test]
fn email_address_refuses_text_without_at_sign() {
    let refused = EmailAddress::new("not an address".to_string());
    assert_eq!(refused.err().unwrap(), "not an address");
}

#[test]
fn email_address_must_be_the_whole_text() {
    assert!(EmailAddress::new("Name <name@example.org>".to_string()).is_err());
    assert!(EmailAddress::new("not an email a@b.co".to_string()).is_err());
    assert!(EmailAddress::new("a@b.co trailing".to_string()).is_err());
    assert!(EmailAddress::new("a@b.co".to_string()).is_ok());
}

#[test]
fn email_address_text_reads_back() {
    let address = EmailAddress::new("x.y+z@mail.example.com".to_string()).unwrap();
    let again = EmailAddress::new(String::from(address.clone())).unwrap();
    assert_eq!(again, address);
}

#[test]
fn verification_token_text_is_lowercase_hex() {
    let token = VerificationToken::from_bytes([0xab, 0x01, 0xff]);
    assert_eq!(token.to_string(), "ab01ff");
}

#[test]
fn verification_token_reads_back_its_text() {
    let token = VerificationToken::from_bytes([0x00, 0x7f, 0xc3]);
    let again = VerificationToken::from_str(&token.to_string()).unwrap();
    assert_eq!(again.bytes(), [0x00, 0x7f, 0xc3]);
}

#[test]
fn verification_token_accepts_upper_case() {
    let token = VerificationToken::from_str("ABCDEF").unwrap();
    assert_eq!(token.bytes(), [0xab, 0xcd, 0xef]);
}

#[test]
fn verification_token_refuses_bad_digit() {
    let err = VerificationToken::from_str("12345g").err().unwrap();
    assert_eq!(err, HexError::InvalidHexCharacter { c: 'g', index: 5 });
}

#[test]
fn verification_token_refuses_wrong_length() {
    assert_eq!(VerificationToken::from_str("1234").err().unwrap(), HexError::InvalidStringLength);
    assert_eq!(VerificationToken::from_str("12345").err().unwrap(), HexError::OddLength);
}

#[test]
fn generated_tokens_have_six_digits() {
    let token = VerificationToken::gen();
    assert_eq!(token.to_string().len(), 6);
}

#[test]
fn role_codes_and_names() {
    assert_eq!(Role::Admin.code(), 0);
    assert_eq!(Role::Regular.code(), 100);
    assert_eq!(i16::from(Role::Regular), 100);
    assert_eq!(Role::from_code(0), Role::Admin);
    assert_eq!(Role::from_code(7), Role::Regular);
    assert_eq!(Role::default(), Role::Regular);
    assert_eq!(Role::Admin.name(), "ADMIN");
    assert_eq!(Role::from_name("REGULAR"), Some(Role::Regular));
    assert_eq!(Role::from_name("regular"), None);
}

#[test]
fn role_round_trips() {
    for role in [Role::Admin, Role::Regular] {
        assert_eq!(Role::from_code(role.code()), role);
        assert_eq!(Role::from_name(role.name()), Some(role));
    }
}

const SALT: &str = "c2FsdHNhbHRzYWx0c2FsdA";

#[test]
fn registered_password_logs_in() {
    let address = EmailAddress::new("user@example.com".to_string()).unwrap();
    let user = register_with_salt(&address, "hunter2", None, SALT.to_string()).unwrap();
    assert_eq!(user.role, 100);
    assert_eq!(user.email_address, "user@example.com");
    assert!(user.password_hash.starts_with("$argon2id$"));
    let stored = StoredCredentials {
        user_id: 42,
        password_salt: user.password_salt.clone(),
        password_hash: user.password_hash.clone(),
    };
    assert_eq!(check_password(&stored, b"hunter2").unwrap(), 42);
    assert!(matches!(check_password(&stored, b"hunter3"), Err(LoginError::InvalidLogin)));
}

#[test]
fn bad_salt_is_a_hashing_error() {
    let address = EmailAddress::new("user@example.com".to_string()).unwrap();
    let result = register_with_salt(&address, "pw", None, "!".to_string());
    assert!(matches!(result, Err(RegisterError::PasswordHashing(_))));
}

#[test]
fn sign_up_form_refuses_malformed_address() {
    let result = register_form("nobody".to_string(), "pw", "Nobody".to_string());
    assert!(matches!(result, Err(RegisterError::EmailAddressFormat)));
}

#[test]
fn unknown_address_is_an_invalid_login() {
    let result = finish_login(Err(DbFailure::RowNotFound), b"pw");
    assert!(matches!(result, Err(LoginError::InvalidLogin)));
    let result = finish_login(Err(DbFailure::Other { message: "gone".to_string() }), b"pw");
    assert!(matches!(result, Err(LoginError::Database(DbFailure::Other { .. }))));
}

#[test]
fn login_and_register_statuses() {
    assert_eq!(LoginError::AlreadyLoggedIn.status(), 409);
    assert_eq!(LoginError::InvalidLogin.status(), 401);
    assert_eq!(LoginError::Session("x".to_string()).status(), 500);
    assert_eq!(RegisterError::DuplicateEmail.status(), 409);
    assert_eq!(RegisterError::EmailAddressFormat.status(), 400);
}

#[test]
fn duplicate_address_on_insert() {
    let f = DbFailure::Database {
        code: Some("23505".to_string()),
        constraint: Some("users_email_key".to_string()),
        message: "duplicate".to_string(),
    };
    assert!(matches!(RegisterError::from_db(f), RegisterError::DuplicateEmail));
    let f = DbFailure::Database {
        code: Some("23505".to_string()),
        constraint: Some("other_key".to_string()),
        message: "duplicate".to_string(),
    };
    assert!(matches!(RegisterError::from_db(f), RegisterError::Database(_)));
}

#[test]
fn token_text_comes_back_lowercased() {
    let token = VerificationToken::from_str("aB0fC9").unwrap();
    assert_eq!(token.to_string(), "ab0fc9");
}

#[test]
fn unknown_address_and_wrong_password_answer_alike() {
    let address = EmailAddress::new("user@example.com".to_string()).unwrap();
    let user = register_with_salt(&address, "right", None, SALT.to_string()).unwrap();
    let stored = StoredCredentials { user_id: 1, password_salt: user.password_salt, password_hash: user.password_hash };
    let wrong = finish_login(Ok(stored), b"wrong").err().unwrap();
    let unknown = finish_login(Err(DbFailure::RowNotFound), b"wrong").err().unwrap();
    assert!(matches!(wrong, LoginError::InvalidLogin));
    assert!(matches!(unknown, LoginError::InvalidLogin));
    let (a, b) = (wrong.reply(), unknown.reply());
    assert_eq!((a.status, a.body), (b.status, b.body));
}
