use spacies::controllers::user_controller::{
    add_user_db, finish_profile_upload, forgot_password_db, get_profile_db, login_db,
    resend_verification_db, store_reset_hash, update_password_db, updat_name_db, verify_user_db,
};
use spacies::auth::decode_token;
use spacies::datetime::DateTime;
use spacies::helpers::bcrypt::{compare_password, encrypt_password};
use spacies::store::{DbError, Store};
use spacies::types::{CreateUser, ForgotPassword, LoginUser, UpdateName, UpdatePassword};

fn now() -> DateTime {
    DateTime { year: 2023, month: 3, day: 14, hour: 9, minute: 30, second: 0, nanosecond: 0 }
}

/// A date far enough ahead that tokens issued then are not yet expired.
fn later() -> DateTime {
    DateTime { year: 2099, month: 1, day: 2, hour: 0, minute: 0, second: 0, nanosecond: 0 }
}

fn form(name: &str, email: &str, password: &str) -> CreateUser {
    CreateUser { username: name.to_string(), email: email.to_string(), user_password: password.to_string() }
}

fn register(db: &mut Store, name: &str, email: &str, password: &str) -> i32 {
    match add_user_db(db, &form(name, email, password), now(), &"s3cret".to_string()) {
        Ok((r, _)) if r.success => db.users.last().unwrap().id,
        _ => panic!("registration failed"),
    }
}

#[test]
fn short_password_is_refused() {
    let mut db = Store::new();
    match add_user_db(&mut db, &form("ann", "ann@x.io", "12345"), now(), &"s3cret".to_string()) {
        Ok((r, m)) => {
            assert!(m.is_none());
            assert!(!r.success);
            assert_eq!(r.message, "password should be min of 6 characters");
        }
        _ => panic!("expected a refusal"),
    }
    assert!(db.users.is_empty());
}

#[test]
fn registration_stores_an_unverified_user_with_a_hash() {
    let mut db = Store::new();
    let id = register(&mut db, "ann", "ann@x.io", "secret1");
    assert_eq!(id, 1);
    let u = &db.users[0];
    assert_eq!(u.username, "ann");
    assert_eq!(u.email, "ann@x.io");
    assert!(!u.verified);
    assert_eq!(u.user_image, "");
    assert_ne!(u.user_password, "secret1");
    assert_eq!(compare_password(&u.user_password, &"secret1".to_string()), Some(true));
    assert_eq!(compare_password(&u.user_password, &"secret2".to_string()), Some(false));
}

#[test]
fn registration_answers_with_a_token_and_a_verification_mail() {
    let mut db = Store::new();
    let (r, m) = add_user_db(&mut db, &form("ann", "ann@x.io", "secret1"), later(), &"s3cret".to_string()).unwrap();
    assert!(r.success);
    assert_eq!(decode_token(&r.message, &"s3cret".to_string()), Some("1".to_string()));
    assert_eq!(decode_token(&r.message, &"other".to_string()), None);
    let m = m.expect("a verification mail");
    assert_eq!((m.to.as_str(), m.name.as_str(), m.subject.as_str()), ("ann@x.io", "ann", "Welcome To Spacies"));
    assert!(m.body.contains("http://localhost:5000/user/verify?token="));
    let h = &db.users[0].user_password;
    assert_eq!(h.len(), 60);
    assert_eq!(&h[..7], "$2b$08$");
}

#[test]
fn duplicate_email_is_a_unique_violation() {
    let mut db = Store::new();
    register(&mut db, "ann", "ann@x.io", "secret1");
    match add_user_db(&mut db, &form("bob", "ann@x.io", "secret2"), now(), &"s3cret".to_string()) {
        Err(e) => assert_eq!(e, DbError::UniqueViolation),
        _ => panic!("expected a unique violation"),
    }
    assert_eq!(db.users.len(), 1);
}

#[test]
fn login_checks_email_and_password() {
    let mut db = Store::new();
    let id = register(&mut db, "ann", "ann@x.io", "secret1");
    let ok = login_db(&db, &LoginUser { email: "ANN@x.io".to_string(), user_password: "secret1".to_string() }, later(), &"s3cret".to_string()).unwrap();
    assert!(ok.success);
    assert_eq!(decode_token(&ok.message, &"s3cret".to_string()), Some(id.to_string()));
    let r = login_db(&db, &LoginUser { email: "ann@x.io".to_string(), user_password: "wrong!".to_string() }, now(), &"s3cret".to_string()).unwrap();
    assert_eq!((r.success, r.message.as_str()), (false, "invalid password"));
    let r = login_db(&db, &LoginUser { email: "zed@x.io".to_string(), user_password: "secret1".to_string() }, now(), &"s3cret".to_string()).unwrap();
    assert_eq!((r.success, r.message.as_str()), (false, "email not found"));
}

#[test]
fn unreadable_stored_hash_is_a_failure() {
    let mut db = Store::new();
    let id = register(&mut db, "ann", "ann@x.io", "secret1");
    db.users[0].user_password = "not a hash".to_string();
    let r = login_db(&db, &LoginUser { email: "ann@x.io".to_string(), user_password: "secret1".to_string() }, now(), &"s3cret".to_string());
    assert!(matches!(r, Err(DbError::Failure)));
    assert_eq!(id, 1);
}

#[test]
fn profile_of_missing_user_is_not_found() {
    let db = Store::new();
    assert!(matches!(get_profile_db(&db, 7), Err(DbError::NotFound)));
}

#[test]
fn name_password_and_verification_updates() {
    let mut db = Store::new();
    let id = register(&mut db, "ann", "ann@x.io", "secret1");
    let r = updat_name_db(&mut db, id, &UpdateName { username: "annie".to_string() });
    assert_eq!(r.message, "username updated successfully");
    assert_eq!(db.users[0].username, "annie");

    let short = update_password_db(&mut db, id, &UpdatePassword { old_password: "secret1".to_string(), new_password: "abc".to_string() });
    assert!(matches!(short, Ok(ref r) if !r.success));
    let wrong = update_password_db(&mut db, id, &UpdatePassword { old_password: "nope".to_string(), new_password: "abcdef".to_string() });
    assert!(matches!(wrong, Ok(ref r) if r.message == "incorrect password"));
    let good = update_password_db(&mut db, id, &UpdatePassword { old_password: "secret1".to_string(), new_password: "abcdef".to_string() });
    assert!(matches!(good, Ok(ref r) if r.success));
    assert_eq!(compare_password(&db.users[0].user_password, &"abcdef".to_string()), Some(true));

    verify_user_db(&mut db, id);
    assert!(db.users[0].verified);
}

#[test]
fn verification_mail_and_password_reset_need_an_account() {
    let mut db = Store::new();
    let id = register(&mut db, "ann", "ann@x.io", "secret1");
    let (r, m) = resend_verification_db(&db, id, later(), &"s3cret".to_string()).unwrap();
    assert!(r.success);
    let m = m.expect("a verification mail");
    assert_eq!((m.to.as_str(), m.name.as_str(), m.subject.as_str()), ("ann@x.io", "ann", "Welcome To Spacies"));
    let start = m.body.find("token=").unwrap() + 6;
    let end = m.body.find("'>click").unwrap();
    assert_eq!(decode_token(&m.body[start..end].to_string(), &"s3cret".to_string()), Some(id.to_string()));
    verify_user_db(&mut db, id);
    let (r, m) = resend_verification_db(&db, id, now(), &"s3cret".to_string()).unwrap();
    assert_eq!((r.success, r.message.as_str()), (false, "your account is already verified"));
    assert!(m.is_none());

    let before = db.users[0].user_password.clone();
    let (r, m) = forgot_password_db(&mut db, &ForgotPassword { email: "ann@x.io".to_string() });
    assert!(r.success);
    assert_eq!(r.message, "Reset email sent successfully");
    let m = m.expect("a reset mail");
    assert_eq!((m.to.as_str(), m.name.as_str(), m.subject.as_str()), ("ann@x.io", "ann", "Password Reset"));
    let start = m.body.find("<b>").unwrap() + 3;
    let end = m.body.find("</b>").unwrap();
    let password = m.body[start..end].to_string();
    assert_eq!(password.len(), 30);
    assert!(password.chars().all(|c| c.is_ascii_alphanumeric()));
    assert_ne!(db.users[0].user_password, before);
    assert_eq!(compare_password(&db.users[0].user_password, &password), Some(true));
    assert_eq!(compare_password(&db.users[0].user_password, &"secret1".to_string()), Some(false));

    let (r, m) = forgot_password_db(&mut db, &ForgotPassword { email: "who@x.io".to_string() });
    assert_eq!(r.message, "email not found");
    assert!(!r.success);
    assert!(m.is_none());
}

#[test]
fn profile_upload_sets_the_image_only_when_stored() {
    let mut db = Store::new();
    let id = register(&mut db, "ann", "ann@x.io", "secret1");
    let r = finish_profile_upload(&mut db, id, None);
    assert_eq!((r.success, r.message.as_str()), (false, "error uploading file"));
    assert_eq!(db.users[0].user_image, "");
    let link = "https://val-mxo.s3.eu-central-1.amazonaws.com/1-a.png".to_string();
    let r = finish_profile_upload(&mut db, id, Some(link.clone()));
    assert_eq!((r.success, r.message.clone()), (true, link.clone()));
    assert_eq!(db.users[0].user_image, link);
}

#[test]
fn a_reset_hash_is_stored_only_when_there_is_one() {
    let mut db = Store::new();
    let id = register(&mut db, "ann", "ann@x.io", "secret1");
    let before = db.users[0].user_password.clone();
    store_reset_hash(&mut db, id, None);
    assert_eq!(db.users[0].user_password, before);
    let h = encrypt_password(&"fresh-password".to_string()).unwrap();
    store_reset_hash(&mut db, id, Some(h.clone()));
    assert_eq!(db.users[0].user_password, h);
    assert_eq!(compare_password(&db.users[0].user_password, &"fresh-password".to_string()), Some(true));
}
