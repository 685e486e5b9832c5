//! Channel membership: adding and removing members, admin rights, leaving,
//! and listings.
use crate::controllers::channel_controller::members_of_channel;
use crate::insert::view_push_channel_users;
use crate::model::{ChannelUser, SpaceChannel, User, Space};
use crate::queries::{
    channel_by_name, channel_member_row, find_channel_by_name, find_channel_member, find_user,
    in_channel, load_member_ctx, load_space_ctx, member_ctx, required, space_ctx, user_row,
};
use crate::store::{Counters, DbError, DbView, Store};
use crate::table::{
    delete_rows, delete_where, find_row, first_match, join_first, join_rows, select_rows,
    update_rows, update_where,
};
use crate::types::{reply, AddUserToFoldr, ChannelPathInfo, DeleteMailList, IdPathInfo, PathInfo, Response};
use vstd::prelude::*;

verus! {

/// The requesting user, the named space, the named channel of it and the
/// user's membership in that channel.
pub open spec fn channel_ctx(v: DbView, uid: i32, path: ChannelPathInfo) -> Result<
    (User, Space, SpaceChannel, ChannelUser),
    DbError,
> {
    match space_ctx(v, uid, path.info@) {
        Err(e) => Err(e),
        Ok((u, s)) => match channel_by_name(v, s.id, path.channel@) {
            Err(e) => Err(e),
            Ok(c) => match required(channel_member_row(v, s.id, c.id, u.id)) {
                Err(e) => Err(e),
                Ok(cu) => Ok((u, s, c, cu)),
            },
        },
    }
}

/// Loads the channel context of a request.
fn load_channel_ctx(db: &Store, uid: i32, path: &ChannelPathInfo) -> (r: Result<
    (User, Space, SpaceChannel, ChannelUser),
    DbError,
>)
    ensures
        r == channel_ctx(db@, uid, *path),
{
    let (u, s) = match load_space_ctx(db, uid, path.info.as_str()) {
        Ok(x) => x,
        Err(e) => return Err(e),
    };
    let c = match find_channel_by_name(db, s.id, path.channel.as_str()) {
        Ok(c) => c,
        Err(e) => return Err(e),
    };
    match find_channel_member(db, s.id, c.id, u.id) {
        Some(cu) => Ok((u, s, c, cu)),
        None => Err(DbError::NotFound),
    }
}

/// Another user's account, for a signed-in user.
pub fn get_user_by_id_db(db: &Store, uid: i32, other_user: &IdPathInfo) -> (r: Result<
    Response<User>,
    DbError,
>)
    ensures
        r == match required(user_row(db@, uid)) {
            Err(e) => Err(e),
            Ok(_) => match required(user_row(db@, other_user.id)) {
                Err(e) => Err(e),
                Ok(o) => Ok(Response { success: true, message: o }),
            },
        },
{
    match find_user(db, uid) {
        Some(_) => {},
        None => return Err(DbError::NotFound),
    }
    match find_user(db, other_user.id) {
        Some(o) => Ok(Response::new(true, o)),
        None => Err(DbError::NotFound),
    }
}

/// Adds the users one after the other to a channel, skipping those already in it.
pub open spec fn add_to_channel_fold(v: DbView, channel_id: i32, space_id: i32, ids: Seq<i32>) -> DbView
    decreases ids.len(),
{
    if ids.len() == 0 {
        v
    } else {
        let v1 = add_to_channel_fold(v, channel_id, space_id, ids.drop_last());
        let a = ids.last();
        match first_match(v1.channel_users, in_channel(channel_id, a)) {
            Some(_) => v1,
            None => view_push_channel_users(
                v1,
                ChannelUser {
                    id: v1.ids.channel_users,
                    space_channel_id: channel_id,
                    space_id,
                    user_id: a,
                    channel_admin: false,
                    viewed: 0,
                },
            ),
        }
    }
}

proof fn lemma_add_to_channel_fold_ids(v: DbView, channel_id: i32, space_id: i32, ids: Seq<i32>)
    requires
        v.ids.room(ids.len() as int),
    ensures
        v.ids.channel_users <= add_to_channel_fold(v, channel_id, space_id, ids).ids.channel_users
            <= v.ids.channel_users + ids.len(),
        add_to_channel_fold(v, channel_id, space_id, ids).ids == (Counters {
            channel_users: add_to_channel_fold(v, channel_id, space_id, ids).ids.channel_users,
            ..v.ids
        }),
    decreases ids.len(),
{
    if ids.len() > 0 {
        lemma_add_to_channel_fold_ids(v, channel_id, space_id, ids.drop_last());
    }
}

/// A channel admin adds users to the named channel; see `add_to_channel_fold`.
pub fn add_user_to_channel_db(db: &mut Store, uid: i32, space_name: &ChannelPathInfo, item: &AddUserToFoldr) -> (r:
    Result<Response<String>, DbError>)
    requires
        old(db)@.ids.room(item.id.len() as int),
    ensures
        match channel_ctx(old(db)@, uid, *space_name) {
            Err(e) => r == Err::<Response<String>, DbError>(e) && final(db)@ == old(db)@,
            Ok((u, s, c, cu)) => if !cu.channel_admin {
                final(db)@ == old(db)@ && (r matches Ok(resp) && resp@ == (
                    false,
                    "only admin allowed to add users to channel"@,
                ))
            } else {
                final(db)@ == add_to_channel_fold(old(db)@, c.id, s.id, item.id@) && (r matches Ok(
                    resp,
                ) && resp@ == (true, "new users added to channel successflly"@))
            },
        },
{
    let (_u, s, c, cu) = match load_channel_ctx(db, uid, space_name) {
        Ok(x) => x,
        Err(e) => return Err(e),
    };
    if !cu.channel_admin {
        return Ok(reply(false, "only admin allowed to add users to channel"));
    }
    let ghost v0 = db@;
    let mut i: usize = 0;
    while i < item.id.len()
        invariant
            i <= item.id.len(),
            v0.ids.room(item.id.len() as int),
            db@ == add_to_channel_fold(v0, c.id, s.id, item.id@.take(i as int)),
        decreases item.id.len() - i,
    {
        proof {
            assert(item.id@.take(i + 1).drop_last() =~= item.id@.take(i as int));
            lemma_add_to_channel_fold_ids(v0, c.id, s.id, item.id@.take(i as int));
        }
        let a = item.id[i];
        let cid = c.id;
        let pred = |x: &ChannelUser| -> (b: bool) ensures b == in_channel(cid, a)(*x), { x.space_channel_id == cid && x.user_id == a };
        match find_row(&db.channel_users, pred, Ghost(in_channel(cid, a))) {
            Some(_) => {},
            None => {
                db.insert_channel_users(cid, s.id, a, false, 0);
            },
        }
        i = i + 1;
    }
    proof {
        assert(item.id@.take(item.id.len() as int) =~= item.id@);
    }
    Ok(reply(true, "new users added to channel successflly"))
}

/// A channel admin removes a user from the named channel.
pub fn remove_user_from_channel_db(db: &mut Store, uid: i32, space_name: &ChannelPathInfo, item: &DeleteMailList) -> (r:
    Result<Response<String>, DbError>)
    ensures
        match channel_ctx(old(db)@, uid, *space_name) {
            Err(e) => r == Err::<Response<String>, DbError>(e) && final(db)@ == old(db)@,
            Ok((u, s, c, cu)) => if !cu.channel_admin {
                final(db)@ == old(db)@ && (r matches Ok(resp) && resp@ == (
                    false,
                    "only admin allowed to kick out user from channel"@,
                ))
            } else {
                final(db)@ == (DbView { channel_users: delete_where(old(db)@.channel_users, in_channel(c.id, item.id)), ..old(db)@ })
                    && (r matches Ok(resp) && resp@ == (true, "user removed from channel successfully"@))
            },
        },
{
    let (_u, _s, c, cu) = match load_channel_ctx(db, uid, space_name) {
        Ok(x) => x,
        Err(e) => return Err(e),
    };
    if !cu.channel_admin {
        return Ok(reply(false, "only admin allowed to kick out user from channel"));
    }
    let cid = c.id;
    let tid = item.id;
    let pred = |x: &ChannelUser| -> (b: bool) ensures b == in_channel(cid, tid)(*x), { x.space_channel_id == cid && x.user_id == tid };
    delete_rows(&mut db.channel_users, pred, Ghost(in_channel(cid, tid)));
    Ok(reply(true, "user removed from channel successfully"))
}

/// A channel membership with a new admin flag.
pub open spec fn with_channel_admin(admin: bool) -> spec_fn(ChannelUser) -> ChannelUser {
    |c: ChannelUser| ChannelUser { channel_admin: admin, ..c }
}

/// A channel admin sets the admin flag of a member of the named channel to
/// the negation of the requester's own flag (the requester's row is read
/// again for that).
pub fn change_user_admin_status_db(db: &mut Store, uid: i32, space_name: &ChannelPathInfo, item: &DeleteMailList) -> (r:
    Result<Response<String>, DbError>)
    ensures
        match channel_ctx(old(db)@, uid, *space_name) {
            Err(e) => r == Err::<Response<String>, DbError>(e) && final(db)@ == old(db)@,
            Ok((u, s, c, cu)) => if !cu.channel_admin {
                final(db)@ == old(db)@ && (r matches Ok(resp) && resp@ == (
                    false,
                    "only admin allowed to updated admin status"@,
                ))
            } else {
                final(db)@ == (DbView { channel_users: update_where(old(db)@.channel_users, in_channel(c.id, item.id), with_channel_admin(!cu.channel_admin)), ..old(db)@ })
                    && (r matches Ok(resp) && resp@ == (true, "Admin Status updated successfully"@))
            },
        },
{
    let (u, s, c, cu) = match load_channel_ctx(db, uid, space_name) {
        Ok(x) => x,
        Err(e) => return Err(e),
    };
    if !cu.channel_admin {
        return Ok(reply(false, "only admin allowed to updated admin status"));
    }
    let cu2 = match find_channel_member(db, s.id, c.id, u.id) {
        Some(x) => x,
        None => return Err(DbError::NotFound),
    };
    let cid = c.id;
    let tid = item.id;
    let flag = !cu2.channel_admin;
    let pred = |x: &ChannelUser| -> (b: bool) ensures b == in_channel(cid, tid)(*x), { x.space_channel_id == cid && x.user_id == tid };
    let f = |x: &ChannelUser| -> (r: ChannelUser) ensures r == with_channel_admin(flag)(*x), { ChannelUser { channel_admin: flag, ..*x } };
    update_rows(&mut db.channel_users, pred, f, Ghost(in_channel(cid, tid)), Ghost(with_channel_admin(flag)));
    Ok(reply(true, "Admin Status updated successfully"))
}

/// The requesting user leaves the named channel.
pub fn leave_channel_db(db: &mut Store, uid: i32, space_name: &ChannelPathInfo) -> (r: Result<
    Response<String>,
    DbError,
>)
    ensures
        match space_ctx(old(db)@, uid, space_name.info@) {
            Err(e) => r == Err::<Response<String>, DbError>(e) && final(db)@ == old(db)@,
            Ok((u, s)) => match channel_by_name(old(db)@, s.id, space_name.channel@) {
                Err(e) => r == Err::<Response<String>, DbError>(e) && final(db)@ == old(db)@,
                Ok(c) => final(db)@ == (DbView { channel_users: delete_where(old(db)@.channel_users, in_channel(c.id, u.id)), ..old(db)@ })
                    && (r matches Ok(resp) && resp@ == (true, "Channel exited successfully"@)),
            },
        },
{
    let (u, s) = match load_space_ctx(db, uid, space_name.info.as_str()) {
        Ok(x) => x,
        Err(e) => return Err(e),
    };
    let c = match find_channel_by_name(db, s.id, space_name.channel.as_str()) {
        Ok(c) => c,
        Err(e) => return Err(e),
    };
    let cid = c.id;
    let me = u.id;
    let pred = |x: &ChannelUser| -> (b: bool) ensures b == in_channel(cid, me)(*x), { x.space_channel_id == cid && x.user_id == me };
    delete_rows(&mut db.channel_users, pred, Ghost(in_channel(cid, me)));
    Ok(reply(true, "Channel exited successfully"))
}

/// Whether the requesting user administers the named channel.
pub fn get_channel_admin_status_db(db: &Store, uid: i32, space_name: &ChannelPathInfo) -> (r: Result<
    Response<bool>,
    DbError,
>)
    ensures
        r == match channel_ctx(db@, uid, *space_name) {
            Err(e) => Err(e),
            Ok((u, s, c, cu)) => Ok(Response { success: true, message: cu.channel_admin }),
        },
{
    let (_u, _s, _c, cu) = match load_channel_ctx(db, uid, space_name) {
        Ok(x) => x,
        Err(e) => return Err(e),
    };
    Ok(Response::new(true, cu.channel_admin))
}

/// Channel memberships of a user within a space.
pub open spec fn user_channels_in_space(user_id: i32, space_id: i32) -> spec_fn(ChannelUser) -> bool {
    |c: ChannelUser| c.user_id == user_id && c.space_id == space_id
}

/// A channel membership and its channel.
pub open spec fn membership_channel_key() -> spec_fn(ChannelUser, SpaceChannel) -> bool {
    |m: ChannelUser, c: SpaceChannel| c.id == m.space_channel_id
}

/// A channel membership and its user.
pub open spec fn membership_user_key() -> spec_fn(ChannelUser, User) -> bool {
    |m: ChannelUser, u: User| u.id == m.user_id
}

/// The channels of the named space that the requesting user belongs to.
pub fn get_user_channel_in_space_db(db: &Store, uid: i32, space_name: &PathInfo) -> (r: Result<
    Response<Vec<(ChannelUser, SpaceChannel)>>,
    DbError,
>)
    ensures
        match space_ctx(db@, uid, space_name.info@) {
            Err(e) => r == Err::<Response<Vec<(ChannelUser, SpaceChannel)>>, DbError>(e),
            Ok((u, s)) => r matches Ok(resp) && resp@ == (
                true,
                join_first(
                    db@.channel_users.filter(user_channels_in_space(u.id, s.id)),
                    db@.spaces_channel,
                    membership_channel_key(),
                ),
            ),
        },
{
    let (u, s) = match load_space_ctx(db, uid, space_name.info.as_str()) {
        Ok(x) => x,
        Err(e) => return Err(e),
    };
    let uid2 = u.id;
    let sid = s.id;
    let pred = |x: &ChannelUser| -> (b: bool) ensures b == user_channels_in_space(uid2, sid)(*x), { x.user_id == uid2 && x.space_id == sid };
    let mine = select_rows(&db.channel_users, pred, Ghost(user_channels_in_space(uid2, sid)));
    let key = |m: &ChannelUser, c: &SpaceChannel| -> (b: bool) ensures b == membership_channel_key()(*m, *c), { c.id == m.space_channel_id };
    let joined = join_rows(&mine, &db.spaces_channel, key, Ghost(membership_channel_key()));
    Ok(Response::new(true, joined))
}

/// The members of a channel of the named space, for a member of the space.
pub fn get_user_in_channel_db(db: &Store, uid: i32, space_name: &ChannelPathInfo) -> (r: Result<
    Response<Vec<(ChannelUser, User)>>,
    DbError,
>)
    ensures
        match member_ctx(db@, uid, space_name.info@) {
            Err(e) => r == Err::<Response<Vec<(ChannelUser, User)>>, DbError>(e),
            Ok((u, s, m)) => match channel_by_name(db@, s.id, space_name.channel@) {
                Err(e) => r == Err::<Response<Vec<(ChannelUser, User)>>, DbError>(e),
                Ok(c) => r matches Ok(resp) && resp@ == (
                    true,
                    join_first(
                        db@.channel_users.filter(members_of_channel(c.id)),
                        db@.users,
                        membership_user_key(),
                    ),
                ),
            },
        },
{
    let (_u, s, _m) = match load_member_ctx(db, uid, space_name.info.as_str()) {
        Ok(x) => x,
        Err(e) => return Err(e),
    };
    let c = match find_channel_by_name(db, s.id, space_name.channel.as_str()) {
        Ok(c) => c,
        Err(e) => return Err(e),
    };
    let cid = c.id;
    let pred = |x: &ChannelUser| -> (b: bool) ensures b == members_of_channel(cid)(*x), { x.space_channel_id == cid };
    let ms = select_rows(&db.channel_users, pred, Ghost(members_of_channel(cid)));
    let key = |m: &ChannelUser, u: &User| -> (b: bool) ensures b == membership_user_key()(*m, *u), { u.id == m.user_id };
    let joined = join_rows(&ms, &db.users, key, Ghost(membership_user_key()));
    Ok(Response::new(true, joined))
}

} // verus!
