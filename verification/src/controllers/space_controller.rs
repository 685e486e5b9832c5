//! Spaces: creation, details, membership, invitations and admin rights.
use crate::controllers::user_controller::{email_taken, insert_user};
use crate::datetime::DateTime;
use crate::auth::{token_for, token_names};
use crate::helpers::mail::{invitation_mail, invitation_mail_of, Mail};
use crate::helpers::socket::decimal;
use crate::helpers::bcrypt::{bcrypt_verify, encrypt_password};
use crate::insert::{
    view_push_channel_users, view_push_spaces, view_push_spaces_channel, view_push_spaces_users,
    view_push_users,
};
use crate::model::{ChannelUser, Row, Space, SpaceChannel, SpaceUser, User};
use crate::queries::{
    channel_by_name, channel_in_space, channel_name_ilike, find_channel_by_name, find_member, find_space, find_space_by_name, find_user,
    find_user_by_email, load_member_ctx, member_ctx, member_row, required,
    space_by_name, space_row, user_by_email, user_row,
};
use crate::store::{rview, Counters, DbError, DbView, Store};
use crate::text::{ascii_lowered, escape_char, is_ascii_text, lemma_ilike_self};
use crate::table::{
    any_match, first_match, lemma_first_match_none, lemma_first_match_push, delete_rows, delete_where, join_first, join_rows, select_rows, update_rows, update_where,
};
use crate::types::{
    opt_reply, opt_view, reply, CreateSpace, CreateUser, InviteToSpace, OptionalResponse, PathInfo,
    PriviledgeStruct, Response, UserIdStruct,
};
use vstd::prelude::*;
use vstd::string::StringExecFns;

verus! {

/// Memberships of a space.
pub open spec fn members_of_space(space_id: i32) -> spec_fn(SpaceUser) -> bool {
    |m: SpaceUser| m.space_id == space_id
}

/// Memberships of a user.
pub open spec fn spaces_of_user(user_id: i32) -> spec_fn(SpaceUser) -> bool {
    |m: SpaceUser| m.user_id == user_id
}

/// A membership row and the user it names.
pub open spec fn member_user_key() -> spec_fn(SpaceUser, User) -> bool {
    |m: SpaceUser, u: User| u.id == m.user_id
}

/// A membership row and the space it names.
pub open spec fn member_space_key() -> spec_fn(SpaceUser, Space) -> bool {
    |m: SpaceUser, s: Space| s.id == m.space_id
}

/// The row with the given id.
pub open spec fn membership_id_is(id: i32) -> spec_fn(SpaceUser) -> bool {
    |m: SpaceUser| m.id == id
}

/// A membership with a new admin status.
pub open spec fn with_admin(admin: bool) -> spec_fn(SpaceUser) -> SpaceUser {
    |m: SpaceUser| SpaceUser { admin_status: admin, ..m }
}

/// The members of a space with their accounts.
pub open spec fn users_in_space(v: DbView, space_id: i32) -> Seq<(SpaceUser, User)> {
    join_first(v.spaces_users.filter(members_of_space(space_id)), v.users, member_user_key())
}

/// The members of the named space, with their accounts.
pub fn get_users_in_space_db(db: &Store, space_name: &PathInfo) -> (r: Result<
    Response<Vec<(SpaceUser, User)>>,
    DbError,
>)
    ensures
        match space_by_name(db@, space_name.info@) {
            Err(e) => r == Err::<Response<Vec<(SpaceUser, User)>>, DbError>(e),
            Ok(s) => r matches Ok(resp) && resp@ == (true, users_in_space(db@, s.id)),
        },
{
    let s = match find_space_by_name(db, space_name.info.as_str()) {
        Ok(s) => s,
        Err(e) => return Err(e),
    };
    let sid = s.id;
    let pred = |m: &SpaceUser| -> (b: bool) ensures b == members_of_space(sid)(*m), { m.space_id == sid };
    let members = select_rows(&db.spaces_users, pred, Ghost(members_of_space(sid)));
    let key = |m: &SpaceUser, u: &User| -> (b: bool) ensures b == member_user_key()(*m, *u), { u.id == m.user_id };
    let joined = join_rows(&members, &db.users, key, Ghost(member_user_key()));
    Ok(Response::new(true, joined))
}

/// Sets the admin status of the membership row `id`.
fn set_member_admin(db: &mut Store, id: i32, admin: bool)
    ensures
        final(db)@ == (DbView { spaces_users: update_where(old(db)@.spaces_users, membership_id_is(id), with_admin(admin)), ..old(db)@ }),
{
    let pred = |m: &SpaceUser| -> (b: bool) ensures b == membership_id_is(id)(*m), { m.id == id };
    let f = |m: &SpaceUser| -> (r: SpaceUser) ensures r == with_admin(admin)(*m), { SpaceUser { admin_status: admin, ..*m } };
    update_rows(&mut db.spaces_users, pred, f, Ghost(membership_id_is(id)), Ghost(with_admin(admin)));
}

/// Deletes the membership row `id`.
fn delete_member(db: &mut Store, id: i32)
    ensures
        final(db)@ == (DbView { spaces_users: delete_where(old(db)@.spaces_users, membership_id_is(id)), ..old(db)@ }),
{
    let pred = |m: &SpaceUser| -> (b: bool) ensures b == membership_id_is(id)(*m), { m.id == id };
    delete_rows(&mut db.spaces_users, pred, Ghost(membership_id_is(id)));
}

/// An admin of the named space sets the admin status of another member.
pub fn change_user_priviledge_status_db(
    db: &mut Store,
    uid: i32,
    space_name: &PathInfo,
    item: &PriviledgeStruct,
) -> (r: Result<Response<String>, DbError>)
    ensures
        match member_ctx(old(db)@, uid, space_name.info@) {
            Err(e) => r == Err::<Response<String>, DbError>(e) && final(db)@ == old(db)@,
            Ok((u, s, m)) => if !m.admin_status {
                final(db)@ == old(db)@ && (r matches Ok(resp) && resp@ == (
                    false,
                    "Only admin is permitted to change a user priviledge status"@,
                ))
            } else {
                match required(member_row(old(db)@, s.id, item.user)) {
                    Err(e) => r == Err::<Response<String>, DbError>(e) && final(db)@ == old(db)@,
                    Ok(t) => final(db)@ == (DbView { spaces_users: update_where(old(db)@.spaces_users, membership_id_is(t.id), with_admin(item.admin)), ..old(db)@ })
                        && (r matches Ok(resp) && resp@ == (true, "priviledge status changed successfully"@)),
                }
            },
        },
{
    let (_u, s, m) = match load_member_ctx(db, uid, space_name.info.as_str()) {
        Ok(x) => x,
        Err(e) => return Err(e),
    };
    if !m.admin_status {
        return Ok(reply(false, "Only admin is permitted to change a user priviledge status"));
    }
    let t = match find_member(db, s.id, item.user) {
        Some(t) => t,
        None => return Err(DbError::NotFound),
    };
    set_member_admin(db, t.id, item.admin);
    Ok(reply(true, "priviledge status changed successfully"))
}

/// The requesting user leaves the named space.
pub fn leave_space_db(db: &mut Store, uid: i32, space_name: &PathInfo) -> (r: Result<
    Response<String>,
    DbError,
>)
    ensures
        match member_ctx(old(db)@, uid, space_name.info@) {
            Err(e) => r == Err::<Response<String>, DbError>(e) && final(db)@ == old(db)@,
            Ok((u, s, m)) => final(db)@ == (DbView { spaces_users: delete_where(old(db)@.spaces_users, membership_id_is(m.id)), ..old(db)@ })
                && (r matches Ok(resp) && resp@ == (true, "Removed from Space successfully"@)),
        },
{
    let (_u, _s, m) = match load_member_ctx(db, uid, space_name.info.as_str()) {
        Ok(x) => x,
        Err(e) => return Err(e),
    };
    delete_member(db, m.id);
    Ok(reply(true, "Removed from Space successfully"))
}

/// An admin of the named space removes another member.
pub fn remove_user_from_space_db(
    db: &mut Store,
    uid: i32,
    space_name: &PathInfo,
    item: &UserIdStruct,
) -> (r: Result<Response<String>, DbError>)
    ensures
        match member_ctx(old(db)@, uid, space_name.info@) {
            Err(e) => r == Err::<Response<String>, DbError>(e) && final(db)@ == old(db)@,
            Ok((u, s, m)) => if !m.admin_status {
                final(db)@ == old(db)@ && (r matches Ok(resp) && resp@ == (
                    false,
                    "Only admin is permitted to kick user out of this space"@,
                ))
            } else {
                match required(member_row(old(db)@, s.id, item.user)) {
                    Err(e) => r == Err::<Response<String>, DbError>(e) && final(db)@ == old(db)@,
                    Ok(t) => final(db)@ == (DbView { spaces_users: delete_where(old(db)@.spaces_users, membership_id_is(t.id)), ..old(db)@ })
                        && (r matches Ok(resp) && resp@ == (true, "user kicked out successfully"@)),
                }
            },
        },
{
    let (_u, s, m) = match load_member_ctx(db, uid, space_name.info.as_str()) {
        Ok(x) => x,
        Err(e) => return Err(e),
    };
    if !m.admin_status {
        return Ok(reply(false, "Only admin is permitted to kick user out of this space"));
    }
    let t = match find_member(db, s.id, item.user) {
        Some(t) => t,
        None => return Err(DbError::NotFound),
    };
    delete_member(db, t.id);
    Ok(reply(true, "user kicked out successfully"))
}

/// Whether the requesting user is an admin of the named space.
pub fn get_user_space_status_db(db: &Store, uid: i32, space_name: &PathInfo) -> (r: Result<
    Response<bool>,
    DbError,
>)
    ensures
        r == match member_ctx(db@, uid, space_name.info@) {
            Err(e) => Err(e),
            Ok((u, s, m)) => Ok(Response { success: true, message: m.admin_status }),
        },
{
    let (_u, _s, m) = match load_member_ctx(db, uid, space_name.info.as_str()) {
        Ok(x) => x,
        Err(e) => return Err(e),
    };
    Ok(Response::new(true, m.admin_status))
}

/// The view after adding `user_id` to a space and to its general channel.
pub open spec fn view_join_space(v: DbView, space_id: i32, general_id: i32, user_id: i32) -> DbView {
    let m = SpaceUser { id: v.ids.spaces_users, user_id, space_id, admin_status: false };
    let v1 = view_push_spaces_users(v, m);
    let c = ChannelUser {
        id: v1.ids.channel_users,
        space_channel_id: general_id,
        space_id,
        user_id,
        channel_admin: false,
        viewed: 0,
    };
    view_push_channel_users(v1, c)
}

/// Adds a user to a space (not admin) and to its general channel.
fn join_space(db: &mut Store, space_id: i32, general_id: i32, user_id: i32)
    requires
        old(db)@.ids.room(1),
    ensures
        final(db)@ == view_join_space(old(db)@, space_id, general_id, user_id),
{
    db.insert_spaces_users(user_id, space_id, false);
    db.insert_channel_users(general_id, space_id, user_id, false, 0);
}

/// An invited person creates an account in the space named by the
/// invitation (the space id carried by its token). The new account is
/// verified, joins the space and its general channel.
pub fn add_invited_user_db(db: &mut Store, space_id: i32, item: &CreateUser, now: DateTime) -> (r:
    Result<Response<String>, DbError>)
    requires
        old(db)@.ids.room(1),
    ensures
        match required(space_row(old(db)@, space_id)) {
            Err(e) => r == Err::<Response<String>, DbError>(e) && final(db)@ == old(db)@,
            Ok(s) => if item.user_password@.len() < 6 {
                final(db)@ == old(db)@ && (r matches Ok(resp) && resp@ == (
                    false,
                    "password should be min of 6 characters"@,
                ))
            } else {
                match r {
                    Err(DbError::Failure) => final(db)@ == old(db)@,
                    Err(DbError::UniqueViolation) => email_taken(old(db)@, item.email@)
                        && final(db)@ == old(db)@,
                    _ => {
                        let u = final(db)@.users.last();
                        let v1 = view_push_users(old(db)@, u);
                        let v2 = view_push_spaces_users(
                            v1,
                            SpaceUser {
                                id: v1.ids.spaces_users,
                                user_id: u.id,
                                space_id: s.id,
                                admin_status: false,
                            },
                        );
                        &&& !email_taken(old(db)@, item.email@)
                        &&& final(db)@.users.len() > 0
                        &&& u.id == old(db)@.ids.users && u.username == item.username && u.email
                            == item.email && u.verified && u.created_at == now
                        &&& u.user_image@ == Seq::<char>::empty()
                        &&& bcrypt_verify(item.user_password@, u.user_password@) == Some(true)
                        &&& u.user_password@.len() == 60
                        &&& u.user_password@.subrange(0, 7) == "$2b$08$"@
                        &&& match channel_by_name(v2, s.id, "General"@) {
                            Err(e) => r == Err::<Response<String>, DbError>(e) && final(db)@ == v2,
                            Ok(g) => final(db)@ == view_push_channel_users(
                                v2,
                                ChannelUser {
                                    id: v2.ids.channel_users,
                                    space_channel_id: g.id,
                                    space_id: s.id,
                                    user_id: u.id,
                                    channel_admin: false,
                                    viewed: 0,
                                },
                            ) && (r matches Ok(resp) && resp@ == (
                                true,
                                "Space account created successfully"@,
                            )),
                        }
                    },
                }
            },
        },
{
    let s = match find_space(db, space_id) {
        Some(s) => s,
        None => return Err(DbError::NotFound),
    };
    if item.user_password.as_str().unicode_len() < 6 {
        return Ok(reply(false, "password should be min of 6 characters"));
    }
    let hashed = match encrypt_password(&item.user_password) {
        Some(h) => h,
        None => return Err(DbError::Failure),
    };
    let u = match insert_user(db, &item.username, &item.email, hashed, true, now) {
        Ok(u) => u,
        Err(e) => return Err(e),
    };
    db.insert_spaces_users(u.id, s.id, false);
    let g = match find_channel_by_name(db, s.id, "General") {
        Ok(g) => g,
        Err(e) => return Err(e),
    };
    db.insert_channel_users(g.id, s.id, u.id, false, 0);
    Ok(reply(true, "Space account created successfully"))
}

/// A mail that an invitation calls for.
pub enum Invitation {
    /// An existing user was added to the space.
    Added(User),
    /// No account has this address: an invitation to register is due.
    Invited(String),
}

/// Invitations of the addresses, one after the other, against a changing
/// store: a registered user who is not yet a member joins the space and its
/// general channel; an unknown address is invited; members and failed
/// lookups are skipped.
pub open spec fn invite_fold(v: DbView, space_id: i32, general_id: i32, emails: Seq<String>) -> (
    DbView,
    Seq<Invitation>,
)
    decreases emails.len(),
{
    if emails.len() == 0 {
        (v, Seq::empty())
    } else {
        let (v1, ns) = invite_fold(v, space_id, general_id, emails.drop_last());
        let e = emails.last();
        match user_by_email(v1, e@) {
            Ok(u) => match member_row(v1, space_id, u.id) {
                Some(_) => (v1, ns),
                None => (view_join_space(v1, space_id, general_id, u.id), ns.push(Invitation::Added(u))),
            },
            Err(DbError::NotFound) => (v1, ns.push(Invitation::Invited(e))),
            Err(_) => (v1, ns),
        }
    }
}

/// Each invitation step takes at most one id of each table.
proof fn lemma_invite_fold_ids(v: DbView, space_id: i32, general_id: i32, emails: Seq<String>)
    requires
        v.ids.room(emails.len() as int),
    ensures
        v.ids.room(0),
        invite_fold(v, space_id, general_id, emails).0.ids.spaces_users <= v.ids.spaces_users
            + emails.len(),
        invite_fold(v, space_id, general_id, emails).0.ids.channel_users <= v.ids.channel_users
            + emails.len(),
        invite_fold(v, space_id, general_id, emails).0.ids.spaces_users >= v.ids.spaces_users,
        invite_fold(v, space_id, general_id, emails).0.ids.channel_users >= v.ids.channel_users,
        invite_fold(v, space_id, general_id, emails).0.ids == (Counters {
            spaces_users: invite_fold(v, space_id, general_id, emails).0.ids.spaces_users,
            channel_users: invite_fold(v, space_id, general_id, emails).0.ids.channel_users,
            ..v.ids
        }),
    decreases emails.len(),
{
    if emails.len() > 0 {
        lemma_invite_fold_ids(v, space_id, general_id, emails.drop_last());
    }
}

/// An admin of the named space invites addresses: see `invite_fold`. The
/// mails the invitations call for (see `invitation_mail_of`) are returned
/// beside the response, one for each invitation, in order; `None` stands for
/// one whose token could not be made.
pub fn invite_user_db(db: &mut Store, uid: i32, space_name: &PathInfo, item: &InviteToSpace, now: DateTime, secret: &String) -> (r:
    Result<(Response<String>, Vec<Option<Mail>>), DbError>)
    requires
        old(db)@.ids.room(item.email.len() as int),
    ensures
        match member_ctx(old(db)@, uid, space_name.info@) {
            Err(e) => r matches Err(x) && x == e && final(db)@ == old(db)@,
            Ok((u, s, m)) => if !m.admin_status {
                final(db)@ == old(db)@ && (r matches Ok((resp, notes)) && resp@ == (
                    false,
                    "Only admin is permitted to invite users to this space"@,
                ) && notes@.len() == 0)
            } else {
                match channel_by_name(old(db)@, s.id, "General"@) {
                    Err(e) => (r matches Err(x) && x == e) && final(db)@ == old(db)@,
                    Ok(g) => {
                        let (w, ns) = invite_fold(old(db)@, s.id, g.id, item.email@);
                        final(db)@ == w && (r matches Ok((resp, mails)) && resp@ == (
                            true,
                            "invite sent successfully"@,
                        ) && mails@.len() == ns.len() && forall|k: int| 0 <= k < ns.len() ==>
                            opt_view(#[trigger] mails@[k]) == invitation_mail_of(ns[k], s, now, secret@)
                            && (mails@[k] is Some && ns[k] is Invited ==> token_names(token_for(decimal(s.id as int), now, 1, secret@)->0, decimal(s.id as int), now, 1, secret@)))
                    },
                }
            },
        },
{
    let (_u, s, m) = match load_member_ctx(db, uid, space_name.info.as_str()) {
        Ok(x) => x,
        Err(e) => return Err(e),
    };
    if !m.admin_status {
        return Ok((reply(false, "Only admin is permitted to invite users to this space"), Vec::new()));
    }
    let g = match find_channel_by_name(db, s.id, "General") {
        Ok(g) => g,
        Err(e) => return Err(e),
    };
    let ghost v0 = db@;
    let mut notes: Vec<Invitation> = Vec::new();
    let mut i: usize = 0;
    while i < item.email.len()
        invariant
            i <= item.email.len(),
            v0.ids.room(item.email.len() as int),
            (db@, notes@) == invite_fold(v0, s.id, g.id, item.email@.take(i as int)),
        decreases item.email.len() - i,
    {
        proof {
            assert(item.email@.take(i + 1).drop_last() =~= item.email@.take(i as int));
            lemma_invite_fold_ids(v0, s.id, g.id, item.email@.take(i as int));
            assert(db@.ids.room(1));
        }
        let e = &item.email[i];
        match find_user_by_email(db, e.as_str()) {
            Ok(u) => {
                match find_member(db, s.id, u.id) {
                    Some(_) => {},
                    None => {
                        join_space(db, s.id, g.id, u.id);
                        notes.push(Invitation::Added(u));
                    },
                }
            },
            Err(DbError::NotFound) => {
                notes.push(Invitation::Invited(e.clone()));
            },
            Err(_) => {},
        }
        i = i + 1;
    }
    proof {
        assert(item.email@.take(item.email.len() as int) =~= item.email@);
    }
    let mut mails: Vec<Option<Mail>> = Vec::new();
    let mut j: usize = 0;
    while j < notes.len()
        invariant
            j <= notes.len(),
            mails@.len() == j,
            forall|k: int| 0 <= k < j ==> opt_view(#[trigger] mails@[k]) == invitation_mail_of(notes@[k], s, now, secret@)
                && (mails@[k] is Some && notes@[k] is Invited ==> token_names(token_for(decimal(s.id as int), now, 1, secret@)->0, decimal(s.id as int), now, 1, secret@)),
        decreases notes.len() - j,
    {
        mails.push(invitation_mail(&notes[j], &s, now, secret));
        j = j + 1;
    }
    Ok((reply(true, "invite sent successfully"), mails))
}

/// The spaces of the requesting user, with their membership rows.
pub open spec fn spaces_of(v: DbView, user_id: i32) -> Seq<(SpaceUser, Space)> {
    join_first(v.spaces_users.filter(spaces_of_user(user_id)), v.spaces, member_space_key())
}

/// The spaces of the requesting user.
pub fn get_user_space_db(db: &Store, uid: i32) -> (r: Result<Response<Vec<(SpaceUser, Space)>>, DbError>)
    ensures
        match user_row(db@, uid) {
            None => r == Err::<Response<Vec<(SpaceUser, Space)>>, DbError>(DbError::NotFound),
            Some(u) => r matches Ok(resp) && resp@ == (true, spaces_of(db@, u.id)),
        },
{
    let u = match find_user(db, uid) {
        Some(u) => u,
        None => return Err(DbError::NotFound),
    };
    let id = u.id;
    let pred = |m: &SpaceUser| -> (b: bool) ensures b == spaces_of_user(id)(*m), { m.user_id == id };
    let mine = select_rows(&db.spaces_users, pred, Ghost(spaces_of_user(id)));
    let key = |m: &SpaceUser, s: &Space| -> (b: bool) ensures b == member_space_key()(*m, *s), { s.id == m.space_id };
    let joined = join_rows(&mine, &db.spaces, key, Ghost(member_space_key()));
    Ok(Response::new(true, joined))
}

/// The named space, for one of its members.
pub fn get_space_db(db: &Store, uid: i32, space_name: &PathInfo) -> (r: Result<Response<Space>, DbError>)
    ensures
        r == match member_ctx(db@, uid, space_name.info@) {
            Err(e) => Err(e),
            Ok((u, s, m)) => Ok(Response { success: true, message: s }),
        },
{
    let (_u, s, _m) = match load_member_ctx(db, uid, space_name.info.as_str()) {
        Ok(x) => x,
        Err(e) => return Err(e),
    };
    Ok(Response::new(true, s))
}

/// The space with the given id.
pub open spec fn space_with_id(id: i32) -> spec_fn(Space) -> bool {
    |s: Space| s.id == id
}

/// A space with a new name and description.
pub open spec fn with_name_desc(name: String, desc: String) -> spec_fn(Space) -> Space {
    |s: Space| Space { spaces_name: name, spaces_desc: desc, ..s }
}

/// A space with a new logo.
pub open spec fn with_logo(link: String) -> spec_fn(Space) -> Space {
    |s: Space| Space { spaces_img: link, ..s }
}

/// Sets the logo of the space `id`.
pub fn set_space_image(db: &mut Store, id: i32, link: &String)
    ensures
        final(db)@ == (DbView { spaces: update_where(old(db)@.spaces, space_with_id(id), with_logo(*link)), ..old(db)@ }),
{
    let pred = |s: &Space| -> (b: bool) ensures b == space_with_id(id)(*s), { s.id == id };
    let f = |s: &Space| -> (r: Space) ensures r == with_logo(*link)(*s), { Space { spaces_img: link.clone(), ..s.duplicate() } };
    update_rows(&mut db.spaces, pred, f, Ghost(space_with_id(id)), Ghost(with_logo(*link)));
}

/// An admin renames and re-describes the named space.
pub fn update_space_db(db: &mut Store, uid: i32, space_name: &PathInfo, item: &CreateSpace) -> (r:
    Result<Response<String>, DbError>)
    ensures
        match user_row(old(db)@, uid) {
            None => r == Err::<Response<String>, DbError>(DbError::NotFound) && final(db)@ == old(db)@,
            Some(u) => match space_by_name(old(db)@, space_name.info@) {
                Ok(s) => match member_row(old(db)@, s.id, u.id) {
                    None => r == Err::<Response<String>, DbError>(DbError::NotFound) && final(db)@
                        == old(db)@,
                    Some(m) => if !m.admin_status {
                        final(db)@ == old(db)@ && (r matches Ok(resp) && resp@ == (
                            false,
                            "Only admin is permitted to update this space details"@,
                        ))
                    } else {
                        final(db)@ == (DbView { spaces: update_where(old(db)@.spaces, space_with_id(s.id), with_name_desc(item.spaces_name, item.spaces_desc)), ..old(db)@ })
                            && (r matches Ok(resp) && resp@ == (true, "Space updated successfully"@))
                    },
                },
                Err(DbError::NotFound) => final(db)@ == old(db)@ && (r matches Ok(resp) && resp@
                    == (false, "space not found"@)),
                Err(_) => final(db)@ == old(db)@ && (r matches Ok(resp) && resp@ == (
                    false,
                    "error getting space"@,
                )),
            },
        },
{
    let u = match find_user(db, uid) {
        Some(u) => u,
        None => return Err(DbError::NotFound),
    };
    match find_space_by_name(db, space_name.info.as_str()) {
        Ok(s) => {
            let m = match find_member(db, s.id, u.id) {
                Some(m) => m,
                None => return Err(DbError::NotFound),
            };
            if !m.admin_status {
                return Ok(reply(false, "Only admin is permitted to update this space details"));
            }
            let id = s.id;
            let name = &item.spaces_name;
            let desc = &item.spaces_desc;
            let pred = |x: &Space| -> (b: bool) ensures b == space_with_id(id)(*x), { x.id == id };
            let f = |x: &Space| -> (r: Space) ensures r == with_name_desc(*name, *desc)(*x), { Space { spaces_name: name.clone(), spaces_desc: desc.clone(), ..x.duplicate() } };
            update_rows(&mut db.spaces, pred, f, Ghost(space_with_id(id)), Ghost(with_name_desc(*name, *desc)));
            Ok(reply(true, "Space updated successfully"))
        },
        Err(DbError::NotFound) => Ok(reply(false, "space not found")),
        Err(_) => Ok(reply(false, "error getting space")),
    }
}

/// The outcome of creating a space, over the store before (`v`) and after
/// (`w`): a verified user creates a space under a name that no space matches
/// yet; the space gets a "General" channel; the creator is admin of both.
pub open spec fn add_space_post(
    v: DbView,
    w: DbView,
    uid: i32,
    item: CreateSpace,
    now: DateTime,
    r: Result<(bool, Option<Seq<char>>, Option<Space>), DbError>,
) -> bool {
    match required(user_row(v, uid)) {
        Err(e) => r == Err::<(bool, Option<Seq<char>>, Option<Space>), DbError>(e) && w == v,
        Ok(u) => if !u.verified {
            w == v && r == Ok::<(bool, Option<Seq<char>>, Option<Space>), DbError>(
                (
                    false,
                    Some(
                        "only verified users are allowed to add space. Click on the verification link sent to your email or request a new verification link"@,
                    ),
                    None,
                ),
            )
        } else {
            match space_by_name(v, item.spaces_name@) {
                Ok(_) => w == v && r == Ok::<(bool, Option<Seq<char>>, Option<Space>), DbError>(
                    (false, Some("space name is already taken. Please select a new name"@), None),
                ),
                Err(DbError::NotFound) => {
                    let s = w.spaces.last();
                    let c = w.spaces_channel.last();
                    let v1 = view_push_spaces(v, s);
                    let v2 = view_push_spaces_users(
                        v1,
                        SpaceUser {
                            id: v1.ids.spaces_users,
                            user_id: u.id,
                            space_id: s.id,
                            admin_status: true,
                        },
                    );
                    let v3 = view_push_spaces_channel(v2, c);
                    &&& w.spaces.len() > 0 && w.spaces_channel.len() > 0
                    &&& s.id == v.ids.spaces && s.spaces_name == item.spaces_name && s.spaces_desc
                        == item.spaces_desc && s.created_at == now
                    &&& s.spaces_img@ == Seq::<char>::empty()
                    &&& c.id == v2.ids.spaces_channel && c.channel_name@ == "General"@
                        && c.space_id == s.id
                    &&& !any_match(v.spaces_channel, channel_in_space(s.id)) ==> channel_by_name(
                        v3,
                        s.id,
                        "General"@,
                    ) == Ok::<SpaceChannel, DbError>(c)
                    &&& match channel_by_name(v3, s.id, "General"@) {
                        Err(e) => r == Err::<(bool, Option<Seq<char>>, Option<Space>), DbError>(e)
                            && w == v3,
                        Ok(g) => w == view_push_channel_users(
                            v3,
                            ChannelUser {
                                id: v3.ids.channel_users,
                                space_channel_id: g.id,
                                space_id: s.id,
                                user_id: u.id,
                                channel_admin: true,
                                viewed: 0,
                            },
                        ) && r == Ok::<(bool, Option<Seq<char>>, Option<Space>), DbError>(
                            (true, Some("space created successfully"@), Some(s)),
                        ),
                    }
                },
                Err(_) => w == v && r == Ok::<(bool, Option<Seq<char>>, Option<Space>), DbError>(
                    (false, Some("some error occured"@), None),
                ),
            }
        },
    }
}

/// A verified user creates a space; see `add_space_post`.
pub fn add_space_db(db: &mut Store, uid: i32, item: &CreateSpace, now: DateTime) -> (r: Result<
    OptionalResponse<String, Space>,
    DbError,
>)
    requires
        old(db)@.ids.room(1),
    ensures
        add_space_post(old(db)@, final(db)@, uid, *item, now, rview(r)),
{
    let u = match find_user(db, uid) {
        Some(u) => u,
        None => return Err(DbError::NotFound),
    };
    if !u.verified {
        return Ok(
            opt_reply(
                false,
                "only verified users are allowed to add space. Click on the verification link sent to your email or request a new verification link",
                None,
            ),
        );
    }
    match find_space_by_name(db, item.spaces_name.as_str()) {
        Ok(_) => Ok(opt_reply(false, "space name is already taken. Please select a new name", None)),
        Err(DbError::NotFound) => {
            let s = db.insert_spaces(item.spaces_name.clone(), item.spaces_desc.clone(), String::new(), now);
            db.insert_spaces_users(u.id, s.id, true);
            let ghost before = db@.spaces_channel;
            let c = db.insert_spaces_channel(String::from_str("General"), s.id);
            let found = find_channel_by_name(db, s.id, "General");
            proof {
                reveal_strlit("General");
                reveal_strlit("general");
                assert(is_ascii_text("General"@));
                assert(ascii_lowered("General"@) =~= "general"@);
                assert(!"general"@.contains(escape_char()));
                lemma_ilike_self("General"@);
                let p = channel_name_ilike(s.id, "General"@);
                lemma_first_match_push(before, c, p);
                if !any_match(before, channel_in_space(s.id)) {
                    assert forall|k: int| 0 <= k < before.len() implies !p(#[trigger] before[k]) by {
                        assert(!channel_in_space(s.id)(before[k]));
                    }
                    lemma_first_match_none(before, p);
                }
            }
            let g = match found {
                Ok(g) => g,
                Err(e) => return Err(e),
            };
            db.insert_channel_users(g.id, s.id, u.id, true, 0);
            Ok(opt_reply(true, "space created successfully", Some(s)))
        },
        Err(_) => Ok(opt_reply(false, "some error occured", None)),
    }
}

/// Whether the requesting user may change the logo of the named space.
pub enum LogoAccess {
    /// Refused, with the reply to send.
    Denied(Response<String>),
    /// Granted, for this space.
    Granted(Space),
}

/// Checks that the requesting user is an admin of the named space before a
/// logo upload; a missing user or membership refuses the request outright.
pub fn space_logo_access(db: &Store, uid: i32, space_name: &PathInfo) -> (r: Result<LogoAccess, DbError>)
    ensures
        match user_row(db@, uid) {
            None => r matches Err(x) && x == DbError::Failure,
            Some(u) => match space_by_name(db@, space_name.info@) {
                Err(_) => r matches Ok(LogoAccess::Denied(resp)) && resp@ == (false, "Space not found"@),
                Ok(s) => match member_row(db@, s.id, u.id) {
                    None => r matches Err(x) && x == DbError::Failure,
                    Some(m) => if !m.admin_status {
                        r matches Ok(LogoAccess::Denied(resp)) && resp@ == (
                            false,
                            "Only admin is permitted to update this space logo"@,
                        )
                    } else {
                        r matches Ok(LogoAccess::Granted(x)) && x == s
                    },
                },
            },
        },
{
    let u = match find_user(db, uid) {
        Some(u) => u,
        None => return Err(DbError::Failure),
    };
    let s = match find_space_by_name(db, space_name.info.as_str()) {
        Ok(s) => s,
        Err(_) => return Ok(LogoAccess::Denied(reply(false, "Space not found"))),
    };
    let m = match find_member(db, s.id, u.id) {
        Some(m) => m,
        None => return Err(DbError::Failure),
    };
    if !m.admin_status {
        return Ok(LogoAccess::Denied(reply(false, "Only admin is permitted to update this space logo")));
    }
    Ok(LogoAccess::Granted(s))
}

/// After a logo upload: a stored file becomes the space's logo and its link
/// is returned; a failed upload changes nothing.
pub fn finish_logo_upload(db: &mut Store, space_id: i32, uploaded: Option<String>) -> (r: Response<String>)
    ensures
        match uploaded {
            None => final(db)@ == old(db)@ && r@ == (false, "error uploading file"@),
            Some(link) => final(db)@ == (DbView { spaces: update_where(old(db)@.spaces, space_with_id(space_id), with_logo(link)), ..old(db)@ })
                && r@ == (true, link@),
        },
{
    match uploaded {
        None => reply(false, "error uploading file"),
        Some(link) => {
            set_space_image(db, space_id, &link);
            Response::new(true, link)
        },
    }
}

} // verus!
