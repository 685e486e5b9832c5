//! Channels of a space: creation, deletion, listing, details and renaming.
use crate::insert::{view_push_channel_users, view_push_spaces_channel};
use crate::model::{ChannelUser, Row, SpaceChannel};
use crate::queries::{
    channel_by_name, channel_in_space, channel_member_row, find_channel_by_name,
    find_channel_member, find_space_by_name, load_member_ctx, member_ctx, required, space_by_name,
    channels_of_space,
};
use crate::store::{rview, DbError, DbView, Store};
use crate::table::{any_match, delete_rows, delete_where, find_index, update_rows, update_where};
use crate::text::{eq_ignore_case, lowercase, same_ignore_case, to_lower};
use crate::types::{
    opt_reply, reply, ChannelField, ChannelPathInfo, OptionalResponse, PathInfo, Response,
};
use vstd::prelude::*;
use vstd::string::StringExecFns;

verus! {

/// Channels of a space whose name equals `name` ignoring case.
pub open spec fn channel_named_like(space_id: i32, name: Seq<char>) -> spec_fn(SpaceChannel) -> bool {
    |c: SpaceChannel| c.space_id == space_id && eq_ignore_case(c.channel_name@, name)
}

/// The space already has a channel of this name (ignoring case).
pub open spec fn channel_name_clash(v: DbView, space_id: i32, name: Seq<char>) -> bool {
    any_match(v.spaces_channel, channel_named_like(space_id, name))
}

/// Whether the space already has a channel of this name, ignoring case.
pub fn channel_name_taken(db: &Store, space_id: i32, name: &String) -> (r: bool)
    ensures
        r == channel_name_clash(db@, space_id, name@),
{
    let pred = |c: &SpaceChannel| -> (b: bool) ensures b == channel_named_like(space_id, name@)(*c), { c.space_id == space_id && same_ignore_case(c.channel_name.as_str(), name.as_str()) };
    let found = find_index(&db.spaces_channel, pred, Ghost(channel_named_like(space_id, name@)));
    proof {
        if found is Some {
            assert(channel_named_like(space_id, name@)(db@.spaces_channel[found->0 as int]));
        }
    }
    found.is_some()
}

/// The outcome of creating a channel, over the store before (`v`) and after
/// (`w`): an admin of the named space creates a channel under a name that no
/// channel of the space has (ignoring case) and becomes its admin.
pub open spec fn create_channel_post(
    v: DbView,
    w: DbView,
    uid: i32,
    space_name: Seq<char>,
    name: String,
    r: Result<(bool, Option<Seq<char>>, Option<SpaceChannel>), DbError>,
) -> bool {
    match member_ctx(v, uid, space_name) {
        Err(e) => r == Err::<(bool, Option<Seq<char>>, Option<SpaceChannel>), DbError>(e) && w == v,
        Ok((u, s, m)) => if !m.admin_status {
            w == v && r == Ok::<(bool, Option<Seq<char>>, Option<SpaceChannel>), DbError>(
                (false, Some("Only admin is permitted to create new channel"@), None),
            )
        } else if channel_name_clash(v, s.id, name@) {
            w == v && r == Ok::<(bool, Option<Seq<char>>, Option<SpaceChannel>), DbError>(
                (false, Some("Channel name already taken"@), None),
            )
        } else {
            let c = SpaceChannel { id: v.ids.spaces_channel, channel_name: name, space_id: s.id };
            let v1 = view_push_spaces_channel(v, c);
            &&& w == view_push_channel_users(
                v1,
                ChannelUser {
                    id: v1.ids.channel_users,
                    space_channel_id: c.id,
                    space_id: s.id,
                    user_id: u.id,
                    channel_admin: true,
                    viewed: 0,
                },
            )
            &&& r == Ok::<(bool, Option<Seq<char>>, Option<SpaceChannel>), DbError>(
                (true, Some("New Channel created successfully"@), Some(c)),
            )
        },
    }
}

/// An admin of the named space creates a channel; see `create_channel_post`.
pub fn create_new_channel_db(db: &mut Store, uid: i32, space_name: &PathInfo, item: &ChannelField) -> (r:
    Result<OptionalResponse<String, SpaceChannel>, DbError>)
    requires
        old(db)@.ids.room(1),
    ensures
        create_channel_post(old(db)@, final(db)@, uid, space_name.info@, item.channel_name, rview(r)),
{
    let (u, s, m) = match load_member_ctx(db, uid, space_name.info.as_str()) {
        Ok(x) => x,
        Err(e) => return Err(e),
    };
    if !m.admin_status {
        return Ok(opt_reply(false, "Only admin is permitted to create new channel", None));
    }
    if channel_name_taken(db, s.id, &item.channel_name) {
        return Ok(opt_reply(false, "Channel name already taken", None));
    }
    let c = db.insert_spaces_channel(item.channel_name.clone(), s.id);
    db.insert_channel_users(c.id, s.id, u.id, true, 0);
    Ok(opt_reply(true, "New Channel created successfully", Some(c)))
}

/// Channel memberships of a channel.
pub open spec fn members_of_channel(channel_id: i32) -> spec_fn(ChannelUser) -> bool {
    |c: ChannelUser| c.space_channel_id == channel_id
}

/// The channel with the given id.
pub open spec fn channel_id_is(id: i32) -> spec_fn(SpaceChannel) -> bool {
    |c: SpaceChannel| c.id == id
}

/// A channel with a new name.
pub open spec fn with_channel_name(name: String) -> spec_fn(SpaceChannel) -> SpaceChannel {
    |c: SpaceChannel| SpaceChannel { channel_name: name, ..c }
}

/// The view after deleting a channel and its memberships.
pub open spec fn view_delete_channel(v: DbView, channel_id: i32) -> DbView {
    DbView {
        channel_users: delete_where(v.channel_users, members_of_channel(channel_id)),
        spaces_channel: delete_where(v.spaces_channel, channel_id_is(channel_id)),
        ..v
    }
}

/// A member who administers both the space and the channel deletes the
/// channel and its memberships.
pub fn delete_channel_db(db: &mut Store, uid: i32, space_name: &ChannelPathInfo) -> (r: Result<
    Response<String>,
    DbError,
>)
    ensures
        match member_ctx(old(db)@, uid, space_name.info@) {
            Err(e) => r == Err::<Response<String>, DbError>(e) && final(db)@ == old(db)@,
            Ok((u, s, m)) => match channel_by_name(old(db)@, s.id, space_name.channel@) {
                Err(e) => r == Err::<Response<String>, DbError>(e) && final(db)@ == old(db)@,
                Ok(c) => match required(channel_member_row(old(db)@, s.id, c.id, u.id)) {
                    Err(e) => r == Err::<Response<String>, DbError>(e) && final(db)@ == old(db)@,
                    Ok(cu) => if !cu.channel_admin || !m.admin_status {
                        final(db)@ == old(db)@ && (r matches Ok(resp) && resp@ == (
                            false,
                            "only admin allowed to delete channel"@,
                        ))
                    } else {
                        final(db)@ == view_delete_channel(old(db)@, c.id) && (r matches Ok(resp)
                            && resp@ == (true, "channel deleted successfully"@))
                    },
                },
            },
        },
{
    let (u, s, m) = match load_member_ctx(db, uid, space_name.info.as_str()) {
        Ok(x) => x,
        Err(e) => return Err(e),
    };
    let c = match find_channel_by_name(db, s.id, space_name.channel.as_str()) {
        Ok(c) => c,
        Err(e) => return Err(e),
    };
    let cu = match find_channel_member(db, s.id, c.id, u.id) {
        Some(cu) => cu,
        None => return Err(DbError::NotFound),
    };
    if !cu.channel_admin || !m.admin_status {
        return Ok(reply(false, "only admin allowed to delete channel"));
    }
    let cid = c.id;
    let pred = |x: &ChannelUser| -> (b: bool) ensures b == members_of_channel(cid)(*x), { x.space_channel_id == cid };
    delete_rows(&mut db.channel_users, pred, Ghost(members_of_channel(cid)));
    let pred2 = |x: &SpaceChannel| -> (b: bool) ensures b == channel_id_is(cid)(*x), { x.id == cid };
    delete_rows(&mut db.spaces_channel, pred2, Ghost(channel_id_is(cid)));
    Ok(reply(true, "channel deleted successfully"))
}

/// The channels of the named space.
pub fn get_channels_in_space_db(db: &Store, space_details: &PathInfo) -> (r: Result<
    Response<Vec<SpaceChannel>>,
    DbError,
>)
    ensures
        match space_by_name(db@, space_details.info@) {
            Err(e) => r == Err::<Response<Vec<SpaceChannel>>, DbError>(e),
            Ok(s) => r matches Ok(resp) && resp@ == (
                true,
                db@.spaces_channel.filter(channel_in_space(s.id)),
            ),
        },
{
    let s = match find_space_by_name(db, space_details.info.as_str()) {
        Ok(s) => s,
        Err(e) => return Err(e),
    };
    let cs = channels_of_space(db, s.id);
    Ok(Response::new(true, cs))
}

/// A channel of the named space, for a member of both.
pub fn get_channel_details_db(db: &Store, uid: i32, space_name: &ChannelPathInfo) -> (r: Result<
    Response<SpaceChannel>,
    DbError,
>)
    ensures
        r == match member_ctx(db@, uid, space_name.info@) {
            Err(e) => Err(e),
            Ok((u, s, m)) => match channel_by_name(db@, s.id, space_name.channel@) {
                Err(e) => Err(e),
                Ok(c) => match required(channel_member_row(db@, s.id, c.id, u.id)) {
                    Err(e) => Err(e),
                    Ok(_) => Ok(Response { success: true, message: c }),
                },
            },
        },
{
    let (u, s, _m) = match load_member_ctx(db, uid, space_name.info.as_str()) {
        Ok(x) => x,
        Err(e) => return Err(e),
    };
    let c = match find_channel_by_name(db, s.id, space_name.channel.as_str()) {
        Ok(c) => c,
        Err(e) => return Err(e),
    };
    match find_channel_member(db, s.id, c.id, u.id) {
        Some(_) => Ok(Response::new(true, c)),
        None => Err(DbError::NotFound),
    }
}

/// The outcome of renaming a channel, over the store before (`v`) and after
/// (`w`): a member renames a channel of the named space to a name that no
/// channel of the space has (ignoring case); the general channel keeps its
/// name.
pub open spec fn edit_channel_post(
    v: DbView,
    w: DbView,
    uid: i32,
    space_name: Seq<char>,
    channel: Seq<char>,
    name: String,
    r: Result<(bool, Seq<char>), DbError>,
) -> bool {
    match member_ctx(v, uid, space_name) {
        Err(e) => r == Err::<(bool, Seq<char>), DbError>(e) && w == v,
        Ok((_u, s, _m)) => if channel_name_clash(v, s.id, name@) {
            w == v && r == Ok::<(bool, Seq<char>), DbError>((false, "Channel name already taken"@))
        } else {
            match channel_by_name(v, s.id, channel) {
                Err(e) => r == Err::<(bool, Seq<char>), DbError>(e) && w == v,
                Ok(c) => if lowercase(c.channel_name@) == "general"@ {
                    w == v && r == Ok::<(bool, Seq<char>), DbError>((false, "General channel can't be modified"@))
                } else {
                    w == (DbView { spaces_channel: update_where(v.spaces_channel, channel_id_is(c.id), with_channel_name(name)), ..v })
                        && r == Ok::<(bool, Seq<char>), DbError>((true, "Channel name updated successfully"@))
                },
            }
        },
    }
}

/// A member renames a channel of the named space; see `edit_channel_post`.
pub fn edit_channel_name_db(
    db: &mut Store,
    uid: i32,
    space_name: &ChannelPathInfo,
    item: &ChannelField,
) -> (r: Result<Response<String>, DbError>)
    ensures
        edit_channel_post(old(db)@, final(db)@, uid, space_name.info@, space_name.channel@, item.channel_name, rview(r)),
{
    let (_u, s, _m) = match load_member_ctx(db, uid, space_name.info.as_str()) {
        Ok(x) => x,
        Err(e) => return Err(e),
    };
    if channel_name_taken(db, s.id, &item.channel_name) {
        return Ok(reply(false, "Channel name already taken"));
    }
    let c = match find_channel_by_name(db, s.id, space_name.channel.as_str()) {
        Ok(c) => c,
        Err(e) => return Err(e),
    };
    let lower = to_lower(c.channel_name.as_str());
    let general = String::from_str("general");
    if lower == general {
        return Ok(reply(false, "General channel can't be modified"));
    }
    let cid = c.id;
    let name = &item.channel_name;
    let pred = |x: &SpaceChannel| -> (b: bool) ensures b == channel_id_is(cid)(*x), { x.id == cid };
    let f = |x: &SpaceChannel| -> (r: SpaceChannel) ensures r == with_channel_name(*name)(*x), { SpaceChannel { channel_name: name.clone(), ..x.duplicate() } };
    update_rows(&mut db.spaces_channel, pred, f, Ghost(channel_id_is(cid)), Ghost(with_channel_name(*name)));
    Ok(reply(true, "Channel name updated successfully"))
}

} // verus!
