use uledger::asset_cache::AssetCache;
use uledger::assets::{asset_kind, check_path, css_asset, prepare_asset, Asset, AssetError, AssetKind, Preparation};
use uledger::config::{key, mils, secs, Duration, KeyVisitor, MilsVisitor, SecsVisitor};
use uledger::db::DbFailure;
use uledger::email::{senders, EmailTemplate, SenderError, VerificationEmailTemplate};
use uledger::ledger::{accounts_listing, AccountInfo, AccountsError, AccountsListing, Kind};
use uledger::postmark::{default_headers, spaced_token, MessageStream, Transaction, Verification, SEND_ENDPOINT};
use uledger::util::{Timestamp, VerificationToken};
use uledger::verification::{
    create_reply, message_after_insert, pending_verification, step_after_delete, ConfirmError,
    ConfirmStep, CreateError,
};
use uledger::util::EmailAddress;

fn violation(code: &str, constraint: &str) -> DbFailure {
    DbFailure::Database {
        code: Some(code.to_string()),
        constraint: Some(constraint.to_string()),
        message: "refused".to_string(),
    }
}

#[test]
fn account_kinds() {
    let kinds = [Kind::Equity, Kind::Asset, Kind::Liability, Kind::Income, Kind::Expense];
    for (code, kind) in kinds.iter().enumerate() {
        assert_eq!(kind.code(), code as i16);
        assert_eq!(Kind::from_code(kind.code()), *kind);
        assert_eq!(Kind::from_name(kind.name()), Some(*kind));
    }
    assert_eq!(Kind::Liability.name(), "LIABILITY");
    assert_eq!(Kind::from_code(-1), Kind::Equity);
    assert_eq!(Kind::from_code(5), Kind::Equity);
    assert_eq!(Kind::default(), Kind::Equity);
    assert_eq!(i16::from(Kind::Expense), 4);
    assert_eq!(Kind::from_name("asset"), None);
}

#[test]
fn account_info_kind_code() {
    let info = AccountInfo { kind: Kind::Income, name: "Salary".to_string(), description: None };
    assert_eq!(info.kind_code(), 3);
}

#[test]
fn accounts_errors() {
    assert!(matches!(
        AccountsError::from_db(violation("23505", "accounts_user_id_kind_name_key")),
        AccountsError::Duplicate
    ));
    let e = AccountsError::from_db(violation("23503", "accounts_user_id_kind_name_key"));
    assert!(matches!(e, AccountsError::Database(_)));
    let r = e.reply();
    assert_eq!((r.status, r.body.as_str()), (500, "internal server error"));
    let r = AccountsError::Duplicate.reply();
    assert_eq!((r.status, r.body.as_str()), (409, "account already exists"));
    assert_eq!(accounts_listing(true), AccountsListing::Partial);
    assert_eq!(accounts_listing(false), AccountsListing::Json);
}

#[test]
fn verification_create_errors() {
    let e = CreateError::from_db(violation("23503", "email_verification_user_id_fkey"));
    assert!(matches!(e, CreateError::UserNotExists));
    assert_eq!(e.reply().status, 404);
    let e = CreateError::from_db(violation("23505", "email_verification_email_address_key"));
    assert!(matches!(e, CreateError::EmailInUse));
    let r = e.reply();
    assert_eq!((r.status, r.body.as_str()), (409, "email already in use"));
    let e = CreateError::from_db(DbFailure::Other { message: "down".to_string() });
    assert!(matches!(e, CreateError::Database(_)));
    let r = create_reply(&Ok(()));
    assert_eq!((r.status, r.body.as_str()), (200, ""));
}

#[test]
fn verification_row_and_message() {
    let address = EmailAddress::new("new@example.com".to_string()).unwrap();
    let token = VerificationToken::from_bytes([0x12, 0x34, 0x56]);
    let row = pending_verification(9, &address, &token);
    assert_eq!((row.user_id, row.email_address.as_str(), row.proof_token.as_str()), (9, "new@example.com", "123456"));
    let now = Timestamp { seconds: 0, nanoseconds: 0 };
    let message = message_after_insert(Ok(()), &address, now, token).ok().unwrap().unwrap();
    assert_eq!(message.to(), "new@example.com");
    assert_eq!(message.kind().proof_token(), "123 456");
    assert_eq!(message.kind().creation_datetime(), "Thursday, January  1 at 12:00AM UTC");
    let failed = message_after_insert(
        Err(violation("23505", "email_verification_email_address_key")),
        &address,
        now,
        VerificationToken::from_bytes([0, 0, 0]),
    );
    assert!(matches!(failed, Err(CreateError::EmailInUse)));
}

#[test]
fn confirmation_steps() {
    assert!(matches!(step_after_delete(Ok(0)), Err(ConfirmError::NoVerificationMatch)));
    assert_eq!(step_after_delete(Ok(1)).ok(), Some(ConfirmStep::UpdateAddress));
    assert_eq!(step_after_delete(Ok(3)).ok(), Some(ConfirmStep::Anomalous { removed: 3 }));
    assert!(matches!(step_after_delete(Err(DbFailure::RowNotFound)), Err(ConfirmError::Database(_))));
    let r = ConfirmError::NoVerificationMatch.reply();
    assert_eq!((r.status, r.body.as_str()), (404, "no verification match"));
}

#[test]
fn postmark_body() {
    let address = EmailAddress::new("to@example.com".to_string()).unwrap();
    let token = VerificationToken::from_bytes([0xab, 0xcd, 0xef]);
    let now = Timestamp { seconds: 0, nanoseconds: 0 };
    let message = Transaction::verification(address.as_str(), now, token).unwrap();
    assert_eq!(message.message_stream(), MessageStream::Verification);
    assert!(message.track_opens());
    assert_eq!(
        message.request_body("from@example.com").ok().unwrap(),
        "{\"MessageStream\":\"verification\",\"From\":\"from@example.com\",\"To\":\"to@example.com\",\"TrackOpens\":true,\"TemplateId\":37491390,\"TemplateModel\":{\"creation_datetime\":\"Thursday, January  1 at 12:00AM UTC\",\"proof_token\":\"abc def\"}}"
    );
    assert_eq!(SEND_ENDPOINT, "https://api.postmarkapp.com/email/withTemplate");
    let headers = default_headers("secret");
    assert_eq!(headers[2].0, "X-Postmark-Server-Token");
    assert_eq!(headers[2].1, "secret");
    assert_eq!(spaced_token(&VerificationToken::from_bytes([1, 2, 3])), "010 203");
}

#[test]
fn message_stream_names() {
    assert_eq!(MessageStream::Broadcast.name(), "broadcast");
    assert_eq!(MessageStream::Inbound.name(), "inbound");
    assert_eq!(MessageStream::Outbound.name(), "outbound");
}

#[test]
fn verification_email_subject() {
    let token = VerificationToken::from_bytes([0xde, 0xad, 0x01]);
    let mail = VerificationEmailTemplate::new(Timestamp { seconds: 86400, nanoseconds: 0 }, &token).unwrap();
    assert_eq!(mail.subject(), "Your Verification Code: dead01");
    assert_eq!(mail.creation_datetime(), "Friday, January  2 at 12:00AM UTC");
}

#[test]
fn durations() {
    let d = Duration::from_millis(2500);
    assert_eq!((d.as_secs(), d.subsec_nanos()), (2, 500_000_000));
    let d = MilsVisitor.visit_u64(1001);
    assert_eq!((d.as_secs(), d.subsec_nanos()), (1, 1_000_000));
    assert_eq!(SecsVisitor.visit_u64(7).as_secs(), 7);
    assert_eq!(mils(30).as_secs(), 30);
    assert_eq!(secs(3600).as_secs(), 3600);
    assert_eq!(MilsVisitor.expecting(), "expected a duration (in seconds)");
}

#[test]
fn session_keys() {
    let encoded = "AAECAwQFBgcICQoLDA0ODxAREhMUFRYXGBkaGxwdHh8gISIjJCUmJygpKissLS4vMDEyMzQ1Njc4OTo7PD0+Pw==";
    let k = key(encoded).ok().unwrap();
    let expected: Vec<u8> = (0..64).collect();
    assert_eq!(k.as_bytes(), expected.as_slice());
    let short = KeyVisitor.visit_str("AQID").ok().unwrap();
    assert_eq!(&short.as_bytes()[..4], &[1, 2, 3, 0]);
    assert_eq!(short.as_bytes().len(), 64);
    let refused = key("not base64!").err().unwrap();
    assert_eq!(refused.input, "not base64!");
    assert_eq!(refused.detail, "DecodeError(InvalidByte(3, 32))");
    assert_eq!(refused.message(), "could not decode \"not base64!\": DecodeError(InvalidByte(3, 32))");
}

#[test]
fn asset_kinds_and_types() {
    assert_eq!(asset_kind(Some("scss")), Some(AssetKind::Scss));
    assert_eq!(asset_kind(Some("sass")), Some(AssetKind::Scss));
    assert_eq!(asset_kind(Some("js")), Some(AssetKind::Js));
    assert_eq!(asset_kind(Some("png")), Some(AssetKind::Png));
    assert_eq!(asset_kind(Some("html")), None);
    assert_eq!(asset_kind(None), None);
    let js = match prepare_asset(Some("js"), b"let a;".to_vec(), None) {
        Ok(Preparation::Ready(asset)) => asset,
        _ => panic!("a script is served as read"),
    };
    assert_eq!((js.content_type(), js.bytes()), ("text/javascript; charset=utf-8", &b"let a;"[..]));
    match prepare_asset(Some("png"), vec![137, 80], None) {
        Ok(Preparation::Ready(png)) => assert_eq!(png.content_type(), "image/png"),
        _ => panic!("an image is served as read"),
    }
    assert!(matches!(prepare_asset(Some("txt"), vec![], None), Err(AssetError::UnsupportedAsset)));
}

#[test]
fn stylesheets_go_to_the_compiler() {
    match prepare_asset(Some("scss"), b"a { b { color: red; } }".to_vec(), Some("/srv/assets".to_string())) {
        Ok(Preparation::Compile { source, import_dirs }) => {
            assert_eq!(source, "a { b { color: red; } }");
            assert_eq!(import_dirs, vec!["/srv/assets".to_string()]);
        }
        _ => panic!("a stylesheet is compiled"),
    }
    assert!(matches!(prepare_asset(Some("scss"), vec![0xff, 0xfe], None), Err(AssetError::Utf8)));
    let css = css_asset(Ok("a b{color:red}".to_string())).ok().unwrap();
    assert!(matches!(css, Asset::Css(_)));
    assert_eq!(css.content_type(), "text/css; charset=utf-8");
    assert_eq!(css.bytes(), b"a b{color:red}");
    assert!(matches!(css_asset(Err("bad".to_string())), Err(AssetError::Grass(m)) if m == "bad"));
}

#[test]
fn asset_cache_keeps_built_assets() {
    let cache = AssetCache::new(16, Duration::from_millis(600_250));
    assert_eq!(cache.capacity(), Some(16));
    assert_eq!(cache.lifetime(), Some((600, 250_000_000)));
    let path = b"/srv/assets/app.js".to_vec();
    assert!(cache.lookup(&path).is_none());
    let (served, stored) = cache.remember(path.clone(), Ok(Asset::Js(b"x".to_vec())), true);
    assert!(stored);
    assert_eq!(served.ok().unwrap().bytes(), b"x");
    assert_eq!(cache.lookup(&path).unwrap().bytes(), b"x");
    let other = b"/srv/assets/other.js".to_vec();
    let (_, stored) = cache.remember(other.clone(), Ok(Asset::Js(b"y".to_vec())), false);
    assert!(!stored);
    assert!(cache.lookup(&other).is_none());
    let (failed, stored) = cache.remember(other.clone(), Err(AssetError::Utf8), true);
    assert!(!stored && matches!(failed, Err(AssetError::Utf8)));
}

#[test]
fn asset_errors() {
    assert!(check_path(true, false).is_ok());
    assert!(matches!(check_path(false, false), Err(AssetError::NotFound)));
    assert!(matches!(check_path(true, true), Err(AssetError::NotFound)));
    assert!(matches!(AssetError::from_io(true, "x".to_string()), AssetError::NotFound));
    let e = AssetError::from_io(false, "denied".to_string());
    let r = e.reply();
    assert_eq!((r.status, r.body.as_str()), (500, "Internal server error."));
    let r = AssetError::UnsupportedAsset.reply();
    assert_eq!((r.status, r.body.as_str()), (415, "Asset type not supported."));
    assert_eq!(AssetError::NotFound.reply().status, 404);
}

#[test]
fn mail_senders() {
    let s = senders("uLedger <noreply@uledger.me>", None).ok().unwrap();
    assert_eq!(s.from, "uLedger <noreply@uledger.me>");
    assert_eq!(s.reply_to, s.from);
    let s = senders("noreply@uledger.me", Some("support@uledger.me")).ok().unwrap();
    assert_eq!((s.from.as_str(), s.reply_to.as_str()), ("noreply@uledger.me", "support@uledger.me"));
    let s = senders("\"uLedger\" <noreply@uledger.me>", None).ok().unwrap();
    assert_eq!(s.from, "uLedger <noreply@uledger.me>");
    assert_eq!(senders("nobody", None).err(), Some(SenderError::From));
    assert_eq!(senders("noreply@uledger.me", Some("nobody")).err(), Some(SenderError::ReplyTo));
}

#[test]
fn mailed_code_without_space_reads_back() {
    let token = VerificationToken::from_bytes([0x9a, 0x0b, 0x7c]);
    let shown = spaced_token(&token);
    assert_eq!(shown, "9a0 b7c");
    let typed: String = shown.chars().filter(|c| *c != ' ').collect();
    assert_eq!(VerificationToken::from_str(&typed).unwrap().bytes(), [0x9a, 0x0b, 0x7c]);
    assert!(VerificationToken::from_str(&shown).is_err());
}

#[test]
fn json_body_escapes_text() {
    let kind = Verification::new(Timestamp { seconds: 0, nanoseconds: 0 }, VerificationToken::from_bytes([0, 0, 1])).unwrap();
    let message = Transaction::new(MessageStream::Outbound, "a\"b\\c\n\u{1}é", kind);
    let body = message.to_json("x/y").unwrap();
    assert!(body.starts_with("{\"MessageStream\":\"outbound\",\"From\":\"x/y\",\"To\":\"a\\\"b\\\\c\\n\\u0001é\",\"TrackOpens\":true,"));
    assert!(body.ends_with("\"proof_token\":\"000 001\"}}"));
}

#[test]
fn confirmation_token_is_single_use() {
    assert!(matches!(step_after_delete(Ok(1)), Ok(ConfirmStep::UpdateAddress)));
    assert!(matches!(step_after_delete(Ok(0)), Err(ConfirmError::NoVerificationMatch)));
}
