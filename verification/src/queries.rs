//! The lookups that the request handlers share: a user by id or e-mail, a
//! space by name, a membership, a channel by name and a channel membership.
use crate::model::{ChannelUser, Space, SpaceChannel, SpaceUser, User};
use crate::store::{DbError, DbView, Store};
use crate::table::{find_row, first_match, select_rows};
use crate::text::{
    ascii_lowered, ilike, ilike_holds, ilike_pattern_ok, ilike_pattern_valid, is_ascii_text, lowercase,
};
use vstd::prelude::*;

verus! {

/// Rows of `users` with the given id.
pub open spec fn user_id_is(id: i32) -> spec_fn(User) -> bool {
    |u: User| u.id == id
}

/// Rows of `users` whose e-mail matches the pattern (`email ILIKE pattern`).
pub open spec fn user_email_ilike(pat: Seq<char>) -> spec_fn(User) -> bool {
    |u: User| ilike_pattern_ok(pat) && ilike(u.email@, pat)
}

/// Rows of `spaces` with the given id.
pub open spec fn space_id_is(id: i32) -> spec_fn(Space) -> bool {
    |s: Space| s.id == id
}

/// Rows of `spaces` whose name matches the pattern.
pub open spec fn space_name_ilike(pat: Seq<char>) -> spec_fn(Space) -> bool {
    |s: Space| ilike_pattern_ok(pat) && ilike(s.spaces_name@, pat)
}

/// Memberships of a user in a space.
pub open spec fn member_of(space_id: i32, user_id: i32) -> spec_fn(SpaceUser) -> bool {
    |m: SpaceUser| m.space_id == space_id && m.user_id == user_id
}

/// Channels of a space.
pub open spec fn channel_in_space(space_id: i32) -> spec_fn(SpaceChannel) -> bool {
    |c: SpaceChannel| c.space_id == space_id
}

/// Channels of a space whose name matches the pattern.
pub open spec fn channel_name_ilike(space_id: i32, pat: Seq<char>) -> spec_fn(SpaceChannel) -> bool {
    |c: SpaceChannel| c.space_id == space_id && ilike_pattern_ok(pat) && ilike(c.channel_name@, pat)
}

/// Channel memberships of a user in a channel of a space.
pub open spec fn channel_member_of(space_id: i32, channel_id: i32, user_id: i32) -> spec_fn(
    ChannelUser,
) -> bool {
    |c: ChannelUser| c.space_id == space_id && c.space_channel_id == channel_id && c.user_id == user_id
}

/// Channel memberships of a user in a channel (whatever the space column).
pub open spec fn in_channel(channel_id: i32, user_id: i32) -> spec_fn(ChannelUser) -> bool {
    |c: ChannelUser| c.space_channel_id == channel_id && c.user_id == user_id
}

/// A lookup by an `ILIKE` pattern: refused pattern, first match, or no row.
pub open spec fn ilike_lookup<T>(rows: Seq<T>, p: spec_fn(T) -> bool, pat: Seq<char>) -> Result<
    T,
    DbError,
> {
    if !ilike_pattern_ok(pat) {
        Err(DbError::BadPattern)
    } else {
        match first_match(rows, p) {
            Some(x) => Ok(x),
            None => Err(DbError::NotFound),
        }
    }
}

/// A lookup that needs a row.
pub open spec fn required<T>(o: Option<T>) -> Result<T, DbError> {
    match o {
        Some(x) => Ok(x),
        None => Err(DbError::NotFound),
    }
}

/// `users.find(id).first()`.
pub open spec fn user_row(v: DbView, id: i32) -> Option<User> {
    first_match(v.users, user_id_is(id))
}

/// `users.filter(email.ilike(pattern)).first()`.
pub open spec fn user_by_email(v: DbView, pat: Seq<char>) -> Result<User, DbError> {
    ilike_lookup(v.users, user_email_ilike(pat), pat)
}

/// `spaces.find(id).first()`.
pub open spec fn space_row(v: DbView, id: i32) -> Option<Space> {
    first_match(v.spaces, space_id_is(id))
}

/// `spaces.filter(spaces_name.ilike(pattern)).first()`.
pub open spec fn space_by_name(v: DbView, pat: Seq<char>) -> Result<Space, DbError> {
    ilike_lookup(v.spaces, space_name_ilike(pat), pat)
}

/// The membership row of a user in a space.
pub open spec fn member_row(v: DbView, space_id: i32, user_id: i32) -> Option<SpaceUser> {
    first_match(v.spaces_users, member_of(space_id, user_id))
}

/// The channel of a space found by name pattern.
pub open spec fn channel_by_name(v: DbView, space_id: i32, pat: Seq<char>) -> Result<
    SpaceChannel,
    DbError,
> {
    ilike_lookup(v.spaces_channel, channel_name_ilike(space_id, pat), pat)
}

/// The channel membership row of a user in a channel of a space.
pub open spec fn channel_member_row(v: DbView, space_id: i32, channel_id: i32, user_id: i32) -> Option<
    ChannelUser,
> {
    first_match(v.channel_users, channel_member_of(space_id, channel_id, user_id))
}

/// The requesting user and the named space.
pub open spec fn space_ctx(v: DbView, uid: i32, name: Seq<char>) -> Result<(User, Space), DbError> {
    match required(user_row(v, uid)) {
        Err(e) => Err(e),
        Ok(u) => match space_by_name(v, name) {
            Err(e) => Err(e),
            Ok(s) => Ok((u, s)),
        },
    }
}

/// The requesting user, the named space and the user's membership in it.
pub open spec fn member_ctx(v: DbView, uid: i32, name: Seq<char>) -> Result<
    (User, Space, SpaceUser),
    DbError,
> {
    match space_ctx(v, uid, name) {
        Err(e) => Err(e),
        Ok((u, s)) => match required(member_row(v, s.id, u.id)) {
            Err(e) => Err(e),
            Ok(m) => Ok((u, s, m)),
        },
    }
}

/// The user with the given id.
pub fn find_user(db: &Store, id: i32) -> (r: Option<User>)
    ensures
        r == user_row(db@, id),
{
    let pred = |u: &User| -> (b: bool) ensures b == user_id_is(id)(*u), { u.id == id };
    find_row(&db.users, pred, Ghost(user_id_is(id)))
}

/// The first user whose e-mail matches the pattern.
pub fn find_user_by_email(db: &Store, pat: &str) -> (r: Result<User, DbError>)
    ensures
        r == user_by_email(db@, pat@),
{
    if !ilike_pattern_valid(pat) {
        return Err(DbError::BadPattern);
    }
    let pred = |u: &User| -> (b: bool) ensures b == user_email_ilike(pat@)(*u), { ilike_holds(u.email.as_str(), pat) };
    match find_row(&db.users, pred, Ghost(user_email_ilike(pat@))) {
        Some(u) => Ok(u),
        None => Err(DbError::NotFound),
    }
}

/// The space with the given id.
pub fn find_space(db: &Store, id: i32) -> (r: Option<Space>)
    ensures
        r == space_row(db@, id),
{
    let pred = |s: &Space| -> (b: bool) ensures b == space_id_is(id)(*s), { s.id == id };
    find_row(&db.spaces, pred, Ghost(space_id_is(id)))
}

/// The first space whose name matches the pattern.
pub fn find_space_by_name(db: &Store, pat: &str) -> (r: Result<Space, DbError>)
    ensures
        r == space_by_name(db@, pat@),
{
    if !ilike_pattern_valid(pat) {
        return Err(DbError::BadPattern);
    }
    let pred = |s: &Space| -> (b: bool) ensures b == space_name_ilike(pat@)(*s), { ilike_holds(s.spaces_name.as_str(), pat) };
    match find_row(&db.spaces, pred, Ghost(space_name_ilike(pat@))) {
        Some(s) => Ok(s),
        None => Err(DbError::NotFound),
    }
}

/// The membership of a user in a space.
pub fn find_member(db: &Store, space_id: i32, user_id: i32) -> (r: Option<SpaceUser>)
    ensures
        r == member_row(db@, space_id, user_id),
{
    let pred = |m: &SpaceUser| -> (b: bool) ensures b == member_of(space_id, user_id)(*m), { m.space_id == space_id && m.user_id == user_id };
    find_row(&db.spaces_users, pred, Ghost(member_of(space_id, user_id)))
}

/// The first channel of a space whose name matches the pattern.
pub fn find_channel_by_name(db: &Store, space_id: i32, pat: &str) -> (r: Result<SpaceChannel, DbError>)
    ensures
        r == channel_by_name(db@, space_id, pat@),
        is_ascii_text(pat@) ==> lowercase(pat@) == ascii_lowered(pat@),
{
    if !ilike_pattern_valid(pat) {
        return Err(DbError::BadPattern);
    }
    let pred = |c: &SpaceChannel| -> (b: bool) ensures b == channel_name_ilike(space_id, pat@)(*c), { c.space_id == space_id && ilike_holds(c.channel_name.as_str(), pat) };
    match find_row(&db.spaces_channel, pred, Ghost(channel_name_ilike(space_id, pat@))) {
        Some(c) => Ok(c),
        None => Err(DbError::NotFound),
    }
}

/// The channel membership of a user in a channel of a space.
pub fn find_channel_member(db: &Store, space_id: i32, channel_id: i32, user_id: i32) -> (r: Option<
    ChannelUser,
>)
    ensures
        r == channel_member_row(db@, space_id, channel_id, user_id),
{
    let pred = |c: &ChannelUser| -> (b: bool) ensures b == channel_member_of(space_id, channel_id, user_id)(*c), { c.space_id == space_id && c.space_channel_id == channel_id && c.user_id == user_id };
    find_row(&db.channel_users, pred, Ghost(channel_member_of(space_id, channel_id, user_id)))
}

/// The channels of a space, in table order.
pub fn channels_of_space(db: &Store, space_id: i32) -> (r: Vec<SpaceChannel>)
    ensures
        r@ == db@.spaces_channel.filter(channel_in_space(space_id)),
{
    let pred = |c: &SpaceChannel| -> (b: bool) ensures b == channel_in_space(space_id)(*c), { c.space_id == space_id };
    select_rows(&db.spaces_channel, pred, Ghost(channel_in_space(space_id)))
}

/// The requesting user and the named space.
pub fn load_space_ctx(db: &Store, uid: i32, name: &str) -> (r: Result<(User, Space), DbError>)
    ensures
        r == space_ctx(db@, uid, name@),
{
    let u = match find_user(db, uid) {
        Some(u) => u,
        None => return Err(DbError::NotFound),
    };
    let s = match find_space_by_name(db, name) {
        Ok(s) => s,
        Err(e) => return Err(e),
    };
    Ok((u, s))
}

/// The requesting user, the named space and the user's membership in it.
pub fn load_member_ctx(db: &Store, uid: i32, name: &str) -> (r: Result<
    (User, Space, SpaceUser),
    DbError,
>)
    ensures
        r == member_ctx(db@, uid, name@),
{
    let (u, s) = match load_space_ctx(db, uid, name) {
        Ok(x) => x,
        Err(e) => return Err(e),
    };
    match find_member(db, s.id, u.id) {
        Some(m) => Ok((u, s, m)),
        None => Err(DbError::NotFound),
    }
}

} // verus!
