//! Mail folders of a space: mailing all members or a folder, and managing
//! the members of a folder.
use crate::controllers::space_controller::{members_of_space, member_user_key, users_in_space};
use crate::helpers::encrypt::{decrypt, magic_decrypt};
use crate::insert::view_push_usermails;
use crate::model::{MailList, Row, SpaceEmail, SpaceUser, User, UserMail};
use crate::queries::{
    find_member, find_space_by_name, find_user, load_member_ctx, member_ctx, member_row, required,
    space_by_name, user_row,
};
use crate::store::{Counters, DbError, DbView, Store};
use crate::table::{delete_rows, delete_where, find_row, first_match, join_first, join_rows, select_rows};
use crate::types::{reply, AddUserToFoldr, AddUserToFolderPath, DeleteMailList, PathInfo, Response, SendMail};
use vstd::prelude::*;
use vstd::string::StringExecFns;

verus! {

/// The account a space sends its mails from, with the password decrypted.
pub struct MailSender {
    pub address: String,
    pub password: String,
    pub provider: String,
}

/// One mail to a member of a folder (the body still to be framed by the
/// folder notice).
pub struct FolderMail {
    pub email: String,
    pub username: String,
    pub title: String,
    pub folder_name: String,
    pub body: String,
}

/// The mails to the given recipients, one each, in order.
pub open spec fn mails_to<T>(mails: Seq<FolderMail>, recipients: Seq<(T, User)>, item: SendMail, folder: Seq<char>) -> bool {
    &&& mails.len() == recipients.len()
    &&& forall|i: int| 0 <= i < mails.len() ==> {
        &&& (#[trigger] mails[i]).email == recipients[i].1.email
        &&& mails[i].username == recipients[i].1.username
        &&& mails[i].title == item.title
        &&& mails[i].body == item.body
        &&& mails[i].folder_name@ == folder
    }
}

/// The sender account of a space, with its password as decrypted under `key`.
pub open spec fn sender_of(c: SpaceEmail, key: Seq<char>, snd: MailSender) -> bool {
    &&& snd.address == c.email_address
    &&& snd.provider == c.email_provider
    &&& magic_decrypt(key, c.email_password@) == Some(snd.password@)
}

/// Mail accounts of a space.
pub open spec fn email_of_space(space_id: i32) -> spec_fn(SpaceEmail) -> bool {
    |c: SpaceEmail| c.space_id == space_id
}

/// The space (found by name), the requesting user and their membership,
/// looked up in that order.
pub open spec fn space_first_ctx(v: DbView, uid: i32, name: Seq<char>) -> Result<(SpaceUser, i32), DbError> {
    match space_by_name(v, name) {
        Err(e) => Err(e),
        Ok(s) => match required(user_row(v, uid)) {
            Err(e) => Err(e),
            Ok(u) => match required(member_row(v, s.id, u.id)) {
                Err(e) => Err(e),
                Ok(m) => Ok((m, s.id)),
            },
        },
    }
}

fn load_space_first_ctx(db: &Store, uid: i32, name: &String) -> (r: Result<(SpaceUser, i32), DbError>)
    ensures
        r == space_first_ctx(db@, uid, name@),
{
    let s = match find_space_by_name(db, name.as_str()) {
        Ok(s) => s,
        Err(e) => return Err(e),
    };
    let u = match find_user(db, uid) {
        Some(u) => u,
        None => return Err(DbError::NotFound),
    };
    match find_member(db, s.id, u.id) {
        Some(m) => Ok((m, s.id)),
        None => Err(DbError::NotFound),
    }
}

/// Builds one mail per recipient.
fn build_mails<T>(recipients: &Vec<(T, User)>, item: &SendMail, folder: &String) -> (r: Vec<FolderMail>)
    ensures
        mails_to(r@, recipients@, *item, folder@),
{
    let mut out: Vec<FolderMail> = Vec::new();
    let mut i: usize = 0;
    while i < recipients.len()
        invariant
            i <= recipients.len(),
            mails_to(out@, recipients@.take(i as int), *item, folder@),
        decreases recipients.len() - i,
    {
        let to = &recipients[i].1;
        out.push(
            FolderMail {
                email: to.email.clone(),
                username: to.username.clone(),
                title: item.title.clone(),
                folder_name: folder.clone(),
                body: item.body.clone(),
            },
        );
        i = i + 1;
    }
    assert(recipients@.take(recipients.len() as int) =~= recipients@);
    out
}

/// The mail account of a space and its decrypted password, or `None` where
/// the space has none; a password that does not decrypt fails the request.
fn load_sender(db: &Store, space_id: i32, key: &String) -> (r: Result<Option<MailSender>, DbError>)
    ensures
        match first_match(db@.spaces_email, email_of_space(space_id)) {
            None => r == Ok::<Option<MailSender>, DbError>(None),
            Some(c) => match magic_decrypt(key@, c.email_password@) {
                None => r == Err::<Option<MailSender>, DbError>(DbError::Failure),
                Some(_) => r matches Ok(Some(snd)) && sender_of(c, key@, snd),
            },
        },
{
    let pred = |c: &SpaceEmail| -> (b: bool) ensures b == email_of_space(space_id)(*c), { c.space_id == space_id };
    match find_row(&db.spaces_email, pred, Ghost(email_of_space(space_id))) {
        None => Ok(None),
        Some(c) => match decrypt(&c.email_password, key) {
            None => Err(DbError::Failure),
            Some(pass) => Ok(Some(MailSender { address: c.email_address.clone(), password: pass, provider: c.email_provider.clone() })),
        },
    }
}

/// What a mailing request produces: the response, the sender and the mails.
pub type Mailing = (Response<String>, Option<MailSender>, Vec<FolderMail>);

/// A member of the named space mails every member of the space, from the
/// space's mail account (its password decrypted with `key`); without such an
/// account nothing is sent.
pub fn send_email_to_general_db(db: &Store, space_name: &PathInfo, uid: i32, item: &SendMail, key: &String) -> (r:
    Result<Mailing, DbError>)
    ensures
        match space_first_ctx(db@, uid, space_name.info@) {
            Err(e) => r matches Err(x) && x == e,
            Ok((m, sid)) => match first_match(db@.spaces_email, email_of_space(sid)) {
                None => r matches Ok((resp, None, mails)) && resp@ == (
                    false,
                    "Please provide email credentials before you use this service"@,
                ) && mails@.len() == 0,
                Some(c) => match magic_decrypt(key@, c.email_password@) {
                    None => r matches Err(x) && x == DbError::Failure,
                    Some(_) => r matches Ok((resp, Some(snd), mails)) && resp@ == (
                        true,
                        "Email sent successfully to all members"@,
                    ) && sender_of(c, key@, snd) && mails_to(mails@, users_in_space(db@, sid), *item, "General"@),
                },
            },
        },
{
    let (_m, sid) = match load_space_first_ctx(db, uid, &space_name.info) {
        Ok(x) => x,
        Err(e) => return Err(e),
    };
    let snd = match load_sender(db, sid, key) {
        Err(e) => return Err(e),
        Ok(None) => {
            return Ok((reply(false, "Please provide email credentials before you use this service"), None, Vec::new()));
        },
        Ok(Some(snd)) => snd,
    };
    let pred = |x: &SpaceUser| -> (b: bool) ensures b == members_of_space(sid)(*x), { x.space_id == sid };
    let members = select_rows(&db.spaces_users, pred, Ghost(members_of_space(sid)));
    let key2 = |x: &SpaceUser, u: &User| -> (b: bool) ensures b == member_user_key()(*x, *u), { u.id == x.user_id };
    let joined = join_rows(&members, &db.users, key2, Ghost(member_user_key()));
    let general = String::from_str("General");
    let mails = build_mails(&joined, item, &general);
    Ok((reply(true, "Email sent successfully to all members"), Some(snd), mails))
}

/// The mail folder with the given id.
pub open spec fn folder_id_is(id: i32) -> spec_fn(MailList) -> bool {
    |f: MailList| f.id == id
}

/// Members of a mail folder.
pub open spec fn in_folder(list_id: i32) -> spec_fn(UserMail) -> bool {
    |x: UserMail| x.mail_list_id == list_id
}

/// A folder membership and its user.
pub open spec fn folder_user_key() -> spec_fn(UserMail, User) -> bool {
    |x: UserMail, u: User| u.id == x.user_id
}

/// The members of a folder with their accounts.
pub open spec fn users_in_folder(v: DbView, list_id: i32) -> Seq<(UserMail, User)> {
    join_first(v.usermails.filter(in_folder(list_id)), v.users, folder_user_key())
}

fn find_folder(db: &Store, id: i32) -> (r: Option<MailList>)
    ensures
        r == first_match(db@.maillists, folder_id_is(id)),
{
    let pred = |f: &MailList| -> (b: bool) ensures b == folder_id_is(id)(*f), { f.id == id };
    find_row(&db.maillists, pred, Ghost(folder_id_is(id)))
}

/// A member of the named space mails the members of a folder of it.
pub fn send_mail_to_folder_db(db: &Store, folder_id: &AddUserToFolderPath, uid: i32, item: &SendMail, key: &String) -> (r:
    Result<Mailing, DbError>)
    ensures
        match space_first_ctx(db@, uid, folder_id.info@) {
            Err(e) => r matches Err(x) && x == e,
            Ok((m, sid)) => match first_match(db@.maillists, folder_id_is(folder_id.id)) {
                None => r matches Err(x) && x == DbError::NotFound,
                Some(f) => match first_match(db@.spaces_email, email_of_space(sid)) {
                    None => r matches Ok((resp, None, mails)) && resp@ == (
                        false,
                        "Please provide email credentials before you use this service"@,
                    ) && mails@.len() == 0,
                    Some(c) => match magic_decrypt(key@, c.email_password@) {
                        None => r matches Err(x) && x == DbError::Failure,
                        Some(_) => r matches Ok((resp, Some(snd), mails)) && resp@ == (
                            true,
                            "Email sent successfully to all members"@,
                        ) && sender_of(c, key@, snd) && mails_to(mails@, users_in_folder(db@, f.id), *item, f.folder_name@),
                    },
                },
            },
        },
{
    let (_m, sid) = match load_space_first_ctx(db, uid, &folder_id.info) {
        Ok(x) => x,
        Err(e) => return Err(e),
    };
    let f = match find_folder(db, folder_id.id) {
        Some(f) => f,
        None => return Err(DbError::NotFound),
    };
    let snd = match load_sender(db, sid, key) {
        Err(e) => return Err(e),
        Ok(None) => {
            return Ok((reply(false, "Please provide email credentials before you use this service"), None, Vec::new()));
        },
        Ok(Some(snd)) => snd,
    };
    let fid = f.id;
    let pred = |x: &UserMail| -> (b: bool) ensures b == in_folder(fid)(*x), { x.mail_list_id == fid };
    let members = select_rows(&db.usermails, pred, Ghost(in_folder(fid)));
    let key2 = |x: &UserMail, u: &User| -> (b: bool) ensures b == folder_user_key()(*x, *u), { u.id == x.user_id };
    let joined = join_rows(&members, &db.users, key2, Ghost(folder_user_key()));
    let mails = build_mails(&joined, item, &f.folder_name);
    Ok((reply(true, "Email sent successfully to all members"), Some(snd), mails))
}

/// The membership of a user in a folder.
pub open spec fn folder_member(list_id: i32, user_id: i32) -> spec_fn(UserMail) -> bool {
    |x: UserMail| x.mail_list_id == list_id && x.user_id == user_id
}

/// An admin of the named space removes a user from a folder.
pub fn remove_user_folder_db(db: &mut Store, uid: i32, folder: &AddUserToFolderPath, item: &DeleteMailList) -> (r:
    Result<Response<String>, DbError>)
    ensures
        match member_ctx(old(db)@, uid, folder.info@) {
            Err(e) => r == Err::<Response<String>, DbError>(e) && final(db)@ == old(db)@,
            Ok((u, s, m)) => if !m.admin_status {
                final(db)@ == old(db)@ && (r matches Ok(resp) && resp@ == (
                    false,
                    "only admin allowed to add users to folder"@,
                ))
            } else {
                match first_match(old(db)@.maillists, folder_id_is(folder.id)) {
                    None => r == Err::<Response<String>, DbError>(DbError::NotFound) && final(db)@ == old(db)@,
                    Some(f) => final(db)@ == (DbView { usermails: delete_where(old(db)@.usermails, folder_member(f.id, item.id)), ..old(db)@ })
                        && (r matches Ok(resp) && resp@ == (true, "user removed successfully"@)),
                }
            },
        },
{
    let (_u, _s, m) = match load_member_ctx(db, uid, folder.info.as_str()) {
        Ok(x) => x,
        Err(e) => return Err(e),
    };
    if !m.admin_status {
        return Ok(reply(false, "only admin allowed to add users to folder"));
    }
    let f = match find_folder(db, folder.id) {
        Some(f) => f,
        None => return Err(DbError::NotFound),
    };
    let fid = f.id;
    let who = item.id;
    let pred = |x: &UserMail| -> (b: bool) ensures b == folder_member(fid, who)(*x), { x.mail_list_id == fid && x.user_id == who };
    delete_rows(&mut db.usermails, pred, Ghost(folder_member(fid, who)));
    Ok(reply(true, "user removed successfully"))
}

/// Adds the users one after the other to a folder, skipping those already in it.
pub open spec fn folder_fold(v: DbView, list_id: i32, ids: Seq<i32>) -> DbView
    decreases ids.len(),
{
    if ids.len() == 0 {
        v
    } else {
        let v1 = folder_fold(v, list_id, ids.drop_last());
        let a = ids.last();
        match first_match(v1.usermails, folder_member(list_id, a)) {
            Some(_) => v1,
            None => view_push_usermails(v1, UserMail { id: v1.ids.usermails, mail_list_id: list_id, user_id: a }),
        }
    }
}

proof fn lemma_folder_fold_ids(v: DbView, list_id: i32, ids: Seq<i32>)
    requires
        v.ids.room(ids.len() as int),
    ensures
        v.ids.usermails <= folder_fold(v, list_id, ids).ids.usermails <= v.ids.usermails + ids.len(),
        folder_fold(v, list_id, ids).ids == (Counters { usermails: folder_fold(v, list_id, ids).ids.usermails, ..v.ids }),
    decreases ids.len(),
{
    if ids.len() > 0 {
        lemma_folder_fold_ids(v, list_id, ids.drop_last());
    }
}

/// An admin of the named space adds users to a folder; see `folder_fold`.
pub fn add_user_folder_db(db: &mut Store, uid: i32, folder: &AddUserToFolderPath, item: &AddUserToFoldr) -> (r:
    Result<Response<String>, DbError>)
    requires
        old(db)@.ids.room(item.id.len() as int),
    ensures
        match member_ctx(old(db)@, uid, folder.info@) {
            Err(e) => r == Err::<Response<String>, DbError>(e) && final(db)@ == old(db)@,
            Ok((u, s, m)) => if !m.admin_status {
                final(db)@ == old(db)@ && (r matches Ok(resp) && resp@ == (
                    false,
                    "only admin allowed to add users to folder"@,
                ))
            } else {
                match first_match(old(db)@.maillists, folder_id_is(folder.id)) {
                    None => r == Err::<Response<String>, DbError>(DbError::NotFound) && final(db)@ == old(db)@,
                    Some(f) => final(db)@ == folder_fold(old(db)@, f.id, item.id@)
                        && (r matches Ok(resp) && resp@ == (true, "Users added successfully"@)),
                }
            },
        },
{
    let (_u, _s, m) = match load_member_ctx(db, uid, folder.info.as_str()) {
        Ok(x) => x,
        Err(e) => return Err(e),
    };
    if !m.admin_status {
        return Ok(reply(false, "only admin allowed to add users to folder"));
    }
    let f = match find_folder(db, folder.id) {
        Some(f) => f,
        None => return Err(DbError::NotFound),
    };
    let fid = f.id;
    let ghost v0 = db@;
    let mut i: usize = 0;
    while i < item.id.len()
        invariant
            i <= item.id.len(),
            v0.ids.room(item.id.len() as int),
            db@ == folder_fold(v0, fid, item.id@.take(i as int)),
        decreases item.id.len() - i,
    {
        proof {
            assert(item.id@.take(i + 1).drop_last() =~= item.id@.take(i as int));
            lemma_folder_fold_ids(v0, fid, item.id@.take(i as int));
        }
        let a = item.id[i];
        let pred = |x: &UserMail| -> (b: bool) ensures b == folder_member(fid, a)(*x), { x.mail_list_id == fid && x.user_id == a };
        match find_row(&db.usermails, pred, Ghost(folder_member(fid, a))) {
            Some(_) => {},
            None => {
                db.insert_usermails(fid, a);
            },
        }
        i = i + 1;
    }
    proof {
        assert(item.id@.take(item.id.len() as int) =~= item.id@);
    }
    Ok(reply(true, "Users added successfully"))
}

} // verus!
