use uledger::api::ledger::{
    account_create_reply, account_delete_reply, account_read_all_reply, account_read_reply,
    account_update_reply, commodity_lookup_reply, commodity_write_reply, transaction_create_reply,
    transaction_delete_reply, transaction_read_all_reply, transaction_read_reply,
    transaction_update_reply, AccountError, CommodityError, TransactionError,
};
use uledger::api::user::{
    begin_logout, display_name_reply, login_reply, login_session, login_success_reply,
    logout_endpoint_reply, logout_reply, parse_verification_code, register_reply,
    register_success_reply, send_verification_reply, verify_reply,
};
use uledger::auth::{LoginError, LogoutError, RegisterError};
use uledger::db::DbFailure;
use uledger::htmx::{hx_redirect, hx_trigger, is_htmx, Header, HtmxRequest, IsHtmx};
use uledger::responses::{email_in_use, internal_error, not_authenticated, user_not_exists, Reply};
use uledger::server::{check_user_authenticated, user_agent, PageAccess, START_PAGE};
use uledger::verification::{ConfirmError, CreateError};

fn header(name: &str, value: &[u8]) -> Header {
    Header { name: name.to_string(), value: value.to_vec() }
}

fn text(r: &Reply) -> (u16, &str) {
    (r.status, r.body.as_str())
}

#[test]
fn htmx_response_headers() {
    assert_eq!(hx_redirect("/login"), ("HX-Redirect", "/login"));
    assert_eq!(hx_trigger("saved"), ("HX-Trigger", "saved"));
}

#[test]
fn htmx_request_detected_by_header() {
    let headers = vec![header("accept", b"*/*"), header("hx-request", b"true")];
    assert!(is_htmx(&headers));
    assert!(IsHtmx::new(&headers).get());
    assert!(!IsHtmx::new(&[header("accept", b"*/*")]).get());
}

#[test]
fn htmx_request_fields() {
    let headers = vec![
        header("hx-request", b"true"),
        header("hx-boosted", b"true"),
        header("hx-target", b"main"),
        header("hx-trigger", b"\xff"),
    ];
    let request = HtmxRequest::new(&headers).unwrap();
    assert!(request.is_boosted());
    assert_eq!(request.target(), Some("main"));
    assert_eq!(request.trigger(), None);
    assert_eq!(request.prompt(), None);
    assert_eq!(request.trigger_name(), None);
    assert!(HtmxRequest::new(&[header("hx-target", b"main")]).is_none());
}

#[test]
fn fixed_replies() {
    assert_eq!(text(&email_in_use()), (409, "Email already in use."));
    assert_eq!(text(&user_not_exists()), (404, "User does not exist."));
    assert_eq!(text(&not_authenticated()), (401, "You must authenticate."));
    assert_eq!(
        text(&internal_error()),
        (500, "Internal server error; please contact: support@uledger.me")
    );
}

#[test]
fn account_replies() {
    assert_eq!(text(&account_read_all_reply(Ok("[]".to_string()))), (200, "[]"));
    assert_eq!(text(&account_read_all_reply(Err(AccountError::NotFound))).0, 500);
    assert_eq!(text(&account_create_reply(Ok("{}".to_string()))), (200, "{}"));
    assert_eq!(
        text(&account_create_reply(Err(AccountError::Duplicate))),
        (409, "Account already exists.")
    );
    assert_eq!(
        text(&account_create_reply(Err(AccountError::NameLength))),
        (400, "Account name is too long.")
    );
    assert_eq!(
        text(&account_create_reply(Err(AccountError::DescriptionLength))),
        (400, "Account description is too long.")
    );
    assert_eq!(
        text(&account_create_reply(Err(AccountError::Failed("x".to_string())))),
        (500, "internal server error")
    );
    assert_eq!(
        text(&account_read_reply(Err(AccountError::NotFound))),
        (404, "Account was not found.")
    );
    assert_eq!(text(&account_update_reply(Err(AccountError::Duplicate))).0, 409);
    assert_eq!(text(&account_update_reply(Err(AccountError::NotFound))).0, 404);
    assert_eq!(text(&account_delete_reply(Ok(()))), (200, "Account has been deleted."));
    assert_eq!(text(&account_delete_reply(Err(AccountError::Duplicate))).0, 500);
}

#[test]
fn commodity_replies() {
    assert_eq!(
        text(&commodity_write_reply(&CommodityError::ThousandsSeparatorLength)),
        (400, "commodity thousands separator too long")
    );
    assert_eq!(
        text(&commodity_write_reply(&CommodityError::DecimalSeparatorLength)),
        (400, "commodity decimal separator too long")
    );
    assert_eq!(text(&commodity_write_reply(&CommodityError::SymbolLength)).0, 400);
    assert_eq!(text(&commodity_write_reply(&CommodityError::Duplicate)).0, 409);
    assert_eq!(text(&commodity_write_reply(&CommodityError::NotFound)).0, 500);
    assert_eq!(text(&commodity_lookup_reply(&CommodityError::NotFound)), (404, "commodity not found"));
}

#[test]
fn transaction_replies() {
    assert_eq!(text(&transaction_read_all_reply(Ok("[1]".to_string()))), (200, "[1]"));
    assert_eq!(
        text(&transaction_create_reply(Err(TransactionError::CurrencyCodeSupport))),
        (400, "Currency code is not supported.")
    );
    assert_eq!(
        text(&transaction_create_reply(Err(TransactionError::DescriptionLength))),
        (400, "Description is too long.")
    );
    assert_eq!(
        text(&transaction_update_reply(Err(TransactionError::DescriptionLength))),
        (400, "Transaction description is too long.")
    );
    assert_eq!(text(&transaction_read_reply(Err(TransactionError::NotFound))).0, 404);
    assert_eq!(text(&transaction_delete_reply(Ok(()))), (200, "Transaction has been deleted."));
}

#[test]
fn user_replies() {
    assert_eq!(text(&register_reply(&Ok(()))), (200, "Your account has been registered."));
    assert_eq!(text(&register_reply(&Err(RegisterError::EmailAddressFormat))).0, 400);
    assert_eq!(
        text(&register_reply(&Err(RegisterError::DuplicateEmail))),
        (409, "Email address is already in use.")
    );
    let r = login_reply(&Ok(1), true);
    assert_eq!((r.status, r.hx_redirect.as_deref(), r.body.as_str()), (200, Some("/"), ""));
    assert_eq!(text(&login_reply(&Ok(1), false)), (200, "You have been logged in."));
    assert_eq!(text(&login_reply(&Err(LoginError::AlreadyLoggedIn), false)).0, 409);
    assert_eq!(
        text(&login_reply(&Err(LoginError::InvalidLogin), true)),
        (401, "Wrong username or password.")
    );
    assert_eq!(text(&begin_logout(true).unwrap()), (401, "You are not logged in."));
    assert!(begin_logout(false).is_none());
    assert_eq!(logout_reply(&Ok(()), true).hx_redirect.as_deref(), Some("/login"));
    assert_eq!(text(&logout_reply(&Err(LogoutError::Session("x".to_string())), false)).0, 500);
    assert_eq!(text(&display_name_reply(Ok("Jane".to_string()))), (200, "Jane"));
    assert_eq!(text(&display_name_reply(Err(DbFailure::RowNotFound))).0, 500);
}

#[test]
fn verification_replies() {
    assert!(parse_verification_code("a1b2c3").is_ok());
    let refused = parse_verification_code("a1b 2c").err().unwrap();
    assert_eq!(text(&refused), (400, "Verification code is malformed."));
    assert_eq!(text(&verify_reply(&Ok(()))), (200, "Your email has been verified."));
    assert_eq!(
        text(&verify_reply(&Err(ConfirmError::NoVerificationMatch))),
        (404, "Verification code does not match.")
    );
    assert_eq!(
        text(&send_verification_reply(&Err(CreateError::EmailInUse))),
        (409, "Email already being used.")
    );
    assert_eq!(text(&send_verification_reply(&Ok(()))), (200, "Verification sent to email."));
}

#[test]
fn site_access() {
    assert!(matches!(check_user_authenticated(true), PageAccess::Serve));
    assert!(matches!(check_user_authenticated(false), PageAccess::TemporaryRedirect("/login")));
    assert_eq!(START_PAGE, "/accounts");
    assert_eq!(user_agent(), "uledger-srv/0.1.0");
}

#[test]
fn htmx_request_required() {
    let refused = HtmxRequest::from_headers(&[header("accept", b"*/*")]).err().unwrap();
    assert_eq!(text(&refused), (400, "Expected an HTMX request."));
    let request = HtmxRequest::from_headers(&[header("hx-request", b"true"), header("hx-prompt", b"yes")]).ok().unwrap();
    assert_eq!(request.prompt(), Some("yes"));
    assert!(!request.is_boosted());
}

#[test]
fn account_errors_from_statements() {
    assert!(matches!(AccountError::from_db(DbFailure::RowNotFound), AccountError::NotFound));
    let duplicate = DbFailure::Database {
        code: Some("23505".to_string()),
        constraint: Some("accounts_user_id_kind_name_key".to_string()),
        message: "duplicate key".to_string(),
    };
    assert!(matches!(AccountError::from_db(duplicate), AccountError::Duplicate));
    let other = DbFailure::Database { code: Some("23502".to_string()), constraint: None, message: "null value".to_string() };
    assert!(matches!(AccountError::from_db(other), AccountError::Failed(m) if m == "null value"));
}

#[test]
fn form_login_answers() {
    let r = LoginError::AlreadyLoggedIn.reply();
    assert_eq!(text(&r), (409, "user already logged in"));
    let r = LoginError::InvalidLogin.reply();
    assert_eq!(text(&r), (401, "invalid email & password combination"));
    let r = LoginError::Database(DbFailure::Other { message: "pool timed out".to_string() }).reply();
    assert_eq!(text(&r), (500, "pool timed out"));
    let r = LoginError::InvalidLogin.bare_reply();
    assert_eq!(text(&r), (401, ""));
    let r = login_success_reply(true);
    assert_eq!((r.status, r.hx_redirect.as_deref(), r.body.as_str()), (200, Some("/"), ""));
    let r = login_success_reply(false);
    assert_eq!((r.status, r.hx_redirect.as_deref(), r.body.as_str()), (200, None, ""));
}

#[test]
fn form_login_session_entries() {
    let headers = vec![header("user-agent", b"curl/8.0"), header("hx-request", b"true")];
    let entries = login_session(7, &headers, Some("Jane".to_string()));
    assert_eq!((entries.user_id, entries.user_agent.as_deref(), entries.display_name.as_deref()), (7, Some("curl/8.0"), Some("Jane")));
    assert_eq!(login_session(7, &[header("user-agent", b"\x80")], None).user_agent, None);
}

#[test]
fn sign_up_answers() {
    let r = register_success_reply(true);
    assert_eq!((r.status, r.hx_redirect.as_deref(), r.body.as_str()), (200, Some("/login"), ""));
    assert_eq!(text(&register_success_reply(false)), (200, ""));
    assert_eq!(text(&RegisterError::DuplicateEmail.reply()), (409, "user already exists"));
    assert_eq!(text(&RegisterError::DuplicateEmail.plain_reply()), (409, "Email already in use."));
    assert_eq!(
        text(&RegisterError::Database(DbFailure::RowNotFound).plain_reply()),
        (500, "Internal server error; please contact: support@uledger.me")
    );
    assert_eq!(text(&register_reply(&Err(RegisterError::EmailAddressLength))), (400, "Email address is too long."));
    assert_eq!(text(&register_reply(&Err(RegisterError::DisplayNameLength))), (400, "Display name is too long."));
}

#[test]
fn plain_logout_answers() {
    assert_eq!(text(&logout_endpoint_reply(&Ok(()))), (200, ""));
    assert_eq!(
        text(&logout_endpoint_reply(&Err(LogoutError::Session("gone".to_string())))),
        (500, "internal server error")
    );
}
