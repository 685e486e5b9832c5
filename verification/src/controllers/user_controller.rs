//! Accounts: registration, login, profile, name and password changes,
//! verification and password reset.
use crate::auth::{create_token, token_for, token_names};
use crate::datetime::DateTime;
use crate::helpers::email_template::forgot_password_body;
use crate::helpers::mail::{password_reset_mail, verification_mail, verification_mail_of, Mail};
use crate::helpers::socket::{decimal, decimal_string};
use crate::helpers::bcrypt::{bcrypt_verify, compare_password, encrypt_password};
use crate::insert::view_push_users;
use crate::model::{Row, User};
use crate::queries::{find_user, find_user_by_email, user_by_email, user_id_is, user_row};
use crate::store::{DbError, DbView, Store};
use crate::table::{any_match, find_index, update_rows, update_where};
use crate::types::{
    opt_view, reply, CreateUser, ForgotPassword, LoginUser, Response, UpdateName, UpdatePassword,
};
use rand::distributions::Alphanumeric;
use rand::rngs::{OsRng, StdRng};
use rand::{Rng, SeedableRng};
use vstd::prelude::*;
use vstd::string::StringExecFns;

verus! {

/// Shortest accepted password, in characters.
pub const MIN_PASSWORD_CHARS: usize = 6;

/// Users whose stored e-mail is exactly `email`.
pub open spec fn email_is(email: Seq<char>) -> spec_fn(User) -> bool {
    |u: User| u.email@ == email
}

/// The e-mail is already registered (the column is unique).
pub open spec fn email_taken(v: DbView, email: Seq<char>) -> bool {
    any_match(v.users, email_is(email))
}

/// Whether some user already has exactly this e-mail.
pub fn email_in_use(db: &Store, email: &String) -> (r: bool)
    ensures
        r == email_taken(db@, email@),
{
    let pred = |u: &User| -> (b: bool) ensures b == email_is(email@)(*u), { u.email == *email };
    let found = find_index(&db.users, pred, Ghost(email_is(email@)));
    found.is_some()
}

/// Inserts a user, refusing an e-mail that is already registered.
pub fn insert_user(
    db: &mut Store,
    username: &String,
    email: &String,
    password_hash: String,
    verified: bool,
    now: DateTime,
) -> (r: Result<User, DbError>)
    requires
        old(db).ids.users < i32::MAX,
    ensures
        match r {
            Ok(u) => {
                &&& !email_taken(old(db)@, email@)
                &&& u == (User {
                    id: old(db)@.ids.users,
                    username: *username,
                    email: *email,
                    user_password: password_hash,
                    user_image: u.user_image,
                    verified,
                    created_at: now,
                })
                &&& u.user_image@ == Seq::<char>::empty()
                &&& final(db)@ == view_push_users(old(db)@, u)
            },
            Err(e) => e == DbError::UniqueViolation && email_taken(old(db)@, email@) && final(db)@
                == old(db)@,
        },
{
    if email_in_use(db, email) {
        return Err(DbError::UniqueViolation);
    }
    let u = db.insert_users(username.clone(), email.clone(), password_hash, String::new(), verified, now);
    Ok(u)
}

/// The answer to a registration of `u`: a token for the new account, valid
/// for 30 days, or `(false, "error creating token")` where none can be made.
pub open spec fn registration_answer(u: User, now: DateTime, secret: Seq<char>) -> (bool, Seq<char>) {
    match token_for(decimal(u.id as int), now, 30, secret) {
        Some(t) => (true, t),
        None => (false, "error creating token"@),
    }
}

/// Registers an account: passwords shorter than six characters are refused;
/// otherwise the password is hashed and an unverified user is stored. The
/// answer carries a 30-day token for the new account, and the verification
/// mail for it is returned beside the answer.
pub fn add_user_db(db: &mut Store, item: &CreateUser, now: DateTime, secret: &String) -> (r: Result<
    (Response<String>, Option<Mail>),
    DbError,
>)
    requires
        old(db).ids.users < i32::MAX,
    ensures
        item.user_password@.len() < 6 ==> final(db)@ == old(db)@ && (r matches Ok((resp, None)) && resp@
            == (false, "password should be min of 6 characters"@)),
        item.user_password@.len() >= 6 ==> match r {
            Ok((resp, m)) => {
                let u = final(db)@.users.last();
                &&& !email_taken(old(db)@, item.email@)
                &&& u.id == old(db)@.ids.users
                &&& u.username == item.username
                &&& u.email == item.email
                &&& u.user_image@ == Seq::<char>::empty()
                &&& !u.verified
                &&& u.created_at == now
                &&& bcrypt_verify(item.user_password@, u.user_password@) == Some(true)
                &&& u.user_password@.len() == 60
                &&& u.user_password@.subrange(0, 7) == "$2b$08$"@
                &&& final(db)@ == view_push_users(old(db)@, u)
                &&& resp@ == registration_answer(u, now, secret@)
                &&& resp.success ==> token_names(resp.message@, decimal(u.id as int), now, 30, secret@)
                &&& opt_view(m) == verification_mail_of(u, now, secret@)
                &&& m is Some ==> token_names(token_for(decimal(u.id as int), now, 1, secret@)->0, decimal(u.id as int), now, 1, secret@)
            },
            Err(DbError::UniqueViolation) => email_taken(old(db)@, item.email@) && final(db)@
                == old(db)@,
            Err(DbError::Failure) => final(db)@ == old(db)@,
            _ => false,
        },
{
    if item.user_password.as_str().unicode_len() < MIN_PASSWORD_CHARS {
        return Ok((reply(false, "password should be min of 6 characters"), None));
    }
    let hashed = match encrypt_password(&item.user_password) {
        Some(h) => h,
        None => return Err(DbError::Failure),
    };
    match insert_user(db, &item.username, &item.email, hashed, false, now) {
        Ok(u) => {
            assert(db@.users.last() == u);
            let id = decimal_string(u.id as i64);
            let resp = match create_token(&id, now, 30, secret) {
                Some(t) => Response::new(true, t),
                None => reply(false, "error creating token"),
            };
            Ok((resp, verification_mail(&u, now, secret)))
        },
        Err(e) => Err(e),
    }
}

/// Logs in by e-mail (matched with `ILIKE`) and password; an accepted
/// login is answered with a token for the account, valid for 30 days.
pub fn login_db(db: &Store, item: &LoginUser, now: DateTime, secret: &String) -> (r: Result<Response<String>, DbError>)
    ensures
        match user_by_email(db@, item.email@) {
            Ok(u) => match bcrypt_verify(item.user_password@, u.user_password@) {
                Some(true) => match token_for(decimal(u.id as int), now, 30, secret@) {
                    Some(t) => r matches Ok(resp) && resp@ == (true, t) && token_names(t, decimal(u.id as int), now, 30, secret@),
                    None => r == Err::<Response<String>, DbError>(DbError::Failure),
                },
                Some(false) => r matches Ok(resp) && resp@ == (false, "invalid password"@),
                None => r == Err::<Response<String>, DbError>(DbError::Failure),
            },
            Err(_) => r matches Ok(resp) && resp@ == (false, "email not found"@),
        },
{
    match find_user_by_email(db, item.email.as_str()) {
        Ok(u) => match compare_password(&u.user_password, &item.user_password) {
            Some(true) => {
                let id = decimal_string(u.id as i64);
                match create_token(&id, now, 30, secret) {
                    Some(t) => Ok(Response::new(true, t)),
                    None => Err(DbError::Failure),
                }
            },
            Some(false) => Ok(reply(false, "invalid password")),
            None => Err(DbError::Failure),
        },
        Err(_) => Ok(reply(false, "email not found")),
    }
}

/// The profile of the requesting user.
pub fn get_profile_db(db: &Store, uid: i32) -> (r: Result<Response<User>, DbError>)
    ensures
        match user_row(db@, uid) {
            Some(u) => r == Ok::<Response<User>, DbError>(Response { success: true, message: u }),
            None => r == Err::<Response<User>, DbError>(DbError::NotFound),
        },
{
    match find_user(db, uid) {
        Some(u) => Ok(Response::new(true, u)),
        None => Err(DbError::NotFound),
    }
}

/// A user with a new name.
pub open spec fn with_username(name: String) -> spec_fn(User) -> User {
    |u: User| User { username: name, ..u }
}

/// A user with a new password hash.
pub open spec fn with_password(hash: String) -> spec_fn(User) -> User {
    |u: User| User { user_password: hash, ..u }
}

/// A verified user.
pub open spec fn as_verified() -> spec_fn(User) -> User {
    |u: User| User { verified: true, ..u }
}

/// A user with a new profile image.
pub open spec fn with_image(link: String) -> spec_fn(User) -> User {
    |u: User| User { user_image: link, ..u }
}

/// Sets the name of the user with id `uid`.
pub fn set_username(db: &mut Store, uid: i32, name: &String)
    ensures
        final(db)@ == (DbView { users: update_where(old(db)@.users, user_id_is(uid), with_username(*name)), ..old(db)@ }),
{
    let pred = |u: &User| -> (b: bool) ensures b == user_id_is(uid)(*u), { u.id == uid };
    let f = |u: &User| -> (r: User) ensures r == with_username(*name)(*u), { User { username: name.clone(), ..u.duplicate() } };
    update_rows(&mut db.users, pred, f, Ghost(user_id_is(uid)), Ghost(with_username(*name)));
}

/// Sets the password hash of the user with id `uid`.
pub fn set_password(db: &mut Store, uid: i32, hash: &String)
    ensures
        final(db)@ == (DbView { users: update_where(old(db)@.users, user_id_is(uid), with_password(*hash)), ..old(db)@ }),
{
    let pred = |u: &User| -> (b: bool) ensures b == user_id_is(uid)(*u), { u.id == uid };
    let f = |u: &User| -> (r: User) ensures r == with_password(*hash)(*u), { User { user_password: hash.clone(), ..u.duplicate() } };
    update_rows(&mut db.users, pred, f, Ghost(user_id_is(uid)), Ghost(with_password(*hash)));
}

/// Sets the profile image of the user with id `uid`.
pub fn set_user_image(db: &mut Store, uid: i32, link: &String)
    ensures
        final(db)@ == (DbView { users: update_where(old(db)@.users, user_id_is(uid), with_image(*link)), ..old(db)@ }),
{
    let pred = |u: &User| -> (b: bool) ensures b == user_id_is(uid)(*u), { u.id == uid };
    let f = |u: &User| -> (r: User) ensures r == with_image(*link)(*u), { User { user_image: link.clone(), ..u.duplicate() } };
    update_rows(&mut db.users, pred, f, Ghost(user_id_is(uid)), Ghost(with_image(*link)));
}

/// Renames the requesting user.
pub fn updat_name_db(db: &mut Store, uid: i32, item: &UpdateName) -> (r: Response<String>)
    ensures
        r@ == (true, "username updated successfully"@),
        final(db)@ == (DbView { users: update_where(old(db)@.users, user_id_is(uid), with_username(item.username)), ..old(db)@ }),
{
    set_username(db, uid, &item.username);
    reply(true, "username updated successfully")
}

/// Changes the password of the requesting user after checking the old one;
/// the new one must have at least six characters.
pub fn update_password_db(db: &mut Store, uid: i32, item: &UpdatePassword) -> (r: Result<
    Response<String>,
    DbError,
>)
    ensures
        match user_row(old(db)@, uid) {
            None => r == Err::<Response<String>, DbError>(DbError::NotFound) && final(db)@ == old(db)@,
            Some(u) => match bcrypt_verify(item.old_password@, u.user_password@) {
                None => r == Err::<Response<String>, DbError>(DbError::Failure) && final(db)@
                    == old(db)@,
                Some(false) => final(db)@ == old(db)@ && (r matches Ok(resp) && resp@ == (
                    false,
                    "incorrect password"@,
                )),
                Some(true) => if item.new_password@.len() < 6 {
                    final(db)@ == old(db)@ && (r matches Ok(resp) && resp@ == (
                        false,
                        "password should be min of 6 characters"@,
                    ))
                } else {
                    match r {
                        Ok(resp) => resp@ == (true, "password updated successfully"@) && exists|
                            h: String,
                        |
                            bcrypt_verify(item.new_password@, h@) == Some(true) && h@.len() == 60
                                && h@.subrange(0, 7) == "$2b$08$"@ && final(db)@
                                == (DbView { users: update_where(old(db)@.users, user_id_is(u.id), with_password(h)), ..old(db)@ }),
                        Err(e) => e == DbError::Failure && final(db)@ == old(db)@,
                    }
                },
            },
        },
{
    let u = match find_user(db, uid) {
        Some(u) => u,
        None => return Err(DbError::NotFound),
    };
    match compare_password(&u.user_password, &item.old_password) {
        None => Err(DbError::Failure),
        Some(false) => Ok(reply(false, "incorrect password")),
        Some(true) => {
            if item.new_password.as_str().unicode_len() < MIN_PASSWORD_CHARS {
                return Ok(reply(false, "password should be min of 6 characters"));
            }
            let hashed = match encrypt_password(&item.new_password) {
                Some(h) => h,
                None => return Err(DbError::Failure),
            };
            set_password(db, u.id, &hashed);
            Ok(reply(true, "password updated successfully"))
        },
    }
}

/// Marks the requesting user as verified.
pub fn verify_user_db(db: &mut Store, uid: i32)
    ensures
        final(db)@ == (DbView { users: update_where(old(db)@.users, user_id_is(uid), as_verified()), ..old(db)@ }),
{
    let pred = |u: &User| -> (b: bool) ensures b == user_id_is(uid)(*u), { u.id == uid };
    let f = |u: &User| -> (r: User) ensures r == as_verified()(*u), { User { verified: true, ..u.duplicate() } };
    update_rows(&mut db.users, pred, f, Ghost(user_id_is(uid)), Ghost(as_verified()));
}

/// Answers a request for a new verification mail; the mail is returned
/// beside the response when the account is not yet verified.
pub fn resend_verification_db(db: &Store, uid: i32, now: DateTime, secret: &String) -> (r: Result<
    (Response<String>, Option<Mail>),
    DbError,
>)
    ensures
        match user_row(db@, uid) {
            None => r == Err::<(Response<String>, Option<Mail>), DbError>(DbError::NotFound),
            Some(u) => if u.verified {
                r matches Ok((resp, None)) && resp@ == (false, "your account is already verified"@)
            } else {
                r matches Ok((resp, m)) && opt_view(m) == verification_mail_of(u, now, secret@)
                    && resp@ == (true, "verification email sent successfully"@)
                    && (m is Some ==> token_names(token_for(decimal(u.id as int), now, 1, secret@)->0, decimal(u.id as int), now, 1, secret@))
            },
        },
{
    let u = match find_user(db, uid) {
        Some(u) => u,
        None => return Err(DbError::NotFound),
    };
    if u.verified {
        Ok((reply(false, "your account is already verified"), None))
    } else {
        Ok((reply(true, "verification email sent successfully"), verification_mail(&u, now, secret)))
    }
}

/// Whether a character is an ASCII letter or digit.
pub open spec fn is_ascii_alphanumeric(c: char) -> bool {
    ('0' <= c && c <= '9') || ('A' <= c && c <= 'Z') || ('a' <= c && c <= 'z')
}

/// A fresh password: `n` characters drawn at random from the ASCII letters
/// and digits, with `rand`'s `Alphanumeric` distribution on a generator
/// seeded from the operating system. Trusted: the length and the characters
/// are as stated; `None` where the operating system gives no seed. Which
/// characters come out is left open (they are random).
#[verifier::external_body]
fn random_alphanumeric(n: usize) -> (r: Option<String>)
    ensures
        r matches Some(p) ==> p@.len() == n && forall|i: int| 0 <= i < n ==> is_ascii_alphanumeric(#[trigger] p@[i]),
{
    let rng = StdRng::from_rng(OsRng).ok()?;
    Some(rng.sample_iter(&Alphanumeric).take(n).map(char::from).collect())
}

/// Length of the passwords a reset sets.
pub const RESET_PASSWORD_CHARS: usize = 30;

/// A reset of `u`'s password from the store `v` to `w`, announced by the
/// mail `m`: the mail tells a fresh 30-character alphanumeric password, and
/// either the password was stored (hashed) or, where hashing failed, the
/// store is unchanged.
pub open spec fn password_reset(v: DbView, w: DbView, u: User, m: (Seq<char>, Seq<char>, Seq<char>, Seq<char>)) -> bool {
    exists|p: Seq<char>| {
        &&& p.len() == 30
        &&& forall|i: int| 0 <= i < 30 ==> is_ascii_alphanumeric(#[trigger] p[i])
        &&& m == (u.email@, u.username@, "Password Reset"@, #[trigger] forgot_password_body(p))
        &&& (w == v || exists|h: String| {
            &&& bcrypt_verify(p, h@) == Some(true)
            &&& h@.len() == 60
            &&& h@.subrange(0, 7) == "$2b$08$"@
            &&& w == (DbView { users: update_where(v.users, user_id_is(u.id), with_password(h)), ..v })
        })
    }
}

/// Stores the outcome of hashing a reset password: a hash becomes the
/// password of user `uid`; where hashing failed nothing changes.
pub fn store_reset_hash(db: &mut Store, uid: i32, hashed: Option<String>)
    ensures
        match hashed {
            Some(h) => final(db)@ == (DbView { users: update_where(old(db)@.users, user_id_is(uid), with_password(h)), ..old(db)@ }),
            None => final(db)@ == old(db)@,
        },
{
    match hashed {
        Some(h) => set_password(db, uid, &h),
        None => {},
    }
}

/// Resets the password of the account found by e-mail: a fresh random
/// password is stored (hashed) and the mail that tells it is returned beside
/// the response. Without randomness nothing changes and no mail is due;
/// where hashing fails the mail still goes out and the password stays.
pub fn forgot_password_db(db: &mut Store, item: &ForgotPassword) -> (r: (Response<String>, Option<Mail>))
    ensures
        match user_by_email(old(db)@, item.email@) {
            Ok(u) => {
                &&& r.0@ == (true, "Reset email sent successfully"@)
                &&& match r.1 {
                    None => final(db)@ == old(db)@,
                    Some(m) => password_reset(old(db)@, final(db)@, u, m@),
                }
            },
            Err(DbError::NotFound) => r.0@ == (false, "email not found"@) && r.1 is None
                && final(db)@ == old(db)@,
            Err(_) => r.0@ == (false, "error geting data"@) && r.1 is None && final(db)@
                == old(db)@,
        },
{
    match find_user_by_email(db, item.email.as_str()) {
        Ok(u) => {
            let p = match random_alphanumeric(RESET_PASSWORD_CHARS) {
                Some(p) => p,
                None => return (reply(true, "Reset email sent successfully"), None),
            };
            let m = password_reset_mail(&u, &p);
            let hashed = encrypt_password(&p);
            store_reset_hash(db, u.id, hashed);
            assert(m@.3 == forgot_password_body(p@));
            (reply(true, "Reset email sent successfully"), Some(m))
        },
        Err(DbError::NotFound) => (reply(false, "email not found"), None),
        Err(_) => (reply(false, "error geting data"), None),
    }
}

/// After a profile image upload: a stored file becomes the requesting user's
/// image and its link is returned; a failed upload changes nothing.
pub fn finish_profile_upload(db: &mut Store, uid: i32, uploaded: Option<String>) -> (r: Response<String>)
    ensures
        match uploaded {
            None => final(db)@ == old(db)@ && r@ == (false, "error uploading file"@),
            Some(link) => final(db)@ == (DbView { users: update_where(old(db)@.users, user_id_is(uid), with_image(link)), ..old(db)@ })
                && r@ == (true, link@),
        },
{
    match uploaded {
        None => reply(false, "error uploading file"),
        Some(link) => {
            set_user_image(db, uid, &link);
            Response::new(true, link)
        },
    }
}

} // verus!
