//! Messages of a channel: listing, deletion, posting and editing.
use crate::datetime::DateTime;
use crate::helpers::socket::{channel_chat_channel, channel_chat_channel_name};
use crate::insert::view_push_channel_chats;
use crate::model::{ChannelChat, Row, User};
use crate::paginate::{count_pages, page_count, page_of, paginate};
use crate::queries::{
    channel_by_name, find_channel_by_name, find_space_by_name, find_user, load_space_ctx,
    space_by_name, space_ctx, user_row,
};
use crate::store::{rview, DbError, DbView, Store};
use crate::table::{
    delete_rows, delete_where, find_row, first_match, join_first, join_rows, select_rows,
    sort_desc, sort_rows_desc, update_rows, update_where,
};
use crate::types::{
    reply, ChannelPathInfo, ChatMessage, IdPathInfo, PaginateQuery, Response, ResponseError,
};
use vstd::prelude::*;
use vstd::string::StringExecFns;

verus! {

/// Messages of a channel.
pub open spec fn chats_of_channel(channel_id: i32) -> spec_fn(ChannelChat) -> bool {
    |c: ChannelChat| c.space_channel_id == channel_id
}

/// A message and its author.
pub open spec fn chat_user_key() -> spec_fn(ChannelChat, User) -> bool {
    |c: ChannelChat, u: User| u.id == c.user_id
}

/// Order of (message, author) pairs by message id.
pub open spec fn chat_pair_le() -> spec_fn((ChannelChat, User), (ChannelChat, User)) -> bool {
    |a: (ChannelChat, User), b: (ChannelChat, User)| a.0.id <= b.0.id
}

/// A page of rows sorted by `le` (descending) and the number of pages.
pub open spec fn page_with_count<T>(rows: Seq<T>, le: spec_fn(T, T) -> bool, q: PaginateQuery) -> Result<
    (Seq<T>, i64),
    DbError,
> {
    match page_of(sort_desc(rows, le), q.page, q.per_page) {
        Err(e) => Err(e),
        Ok((p, t)) => Ok((p, page_count(t, q.per_page as int) as i64)),
    }
}

/// Sorts, cuts out the page and counts the pages.
pub fn paged_with_count<T: Row>(
    rows: &Vec<T>,
    le: impl Fn(&T, &T) -> bool,
    Ghost(l): Ghost<spec_fn(T, T) -> bool>,
    q: &PaginateQuery,
) -> (r: Result<(Vec<T>, i64), DbError>)
    requires
        forall|a: T, b: T| #[trigger] le.requires((&a, &b)),
        forall|a: T, b: T, x: bool| le.ensures((&a, &b), x) ==> x == l(a, b),
    ensures
        match page_with_count(rows@, l, *q) {
            Err(e) => r == Err::<(Vec<T>, i64), DbError>(e),
            Ok((p, n)) => r matches Ok((v, m)) && v@ == p && m == n,
        },
{
    let sorted = sort_rows_desc(rows, le, Ghost(l));
    match paginate(&sorted, q.page, q.per_page) {
        Err(e) => Err(e),
        Ok((v, t)) => {
            proof {
                assert(0 <= t);
            }
            let pages = count_pages(t, q.per_page);
            Ok((v, pages))
        },
    }
}

/// The messages of a channel of the named space with their authors, newest
/// first, paginated, with the number of pages.
pub fn get_all_message_db(db: &Store, uid: i32, space_name: &ChannelPathInfo, item: &PaginateQuery) -> (r:
    Result<Response<(Vec<(ChannelChat, User)>, i64)>, DbError>)
    ensures
        rview(r) == match space_ctx(db@, uid, space_name.info@) {
            Err(e) => Err(e),
            Ok((u, s)) => match channel_by_name(db@, s.id, space_name.channel@) {
                Err(e) => Err(e),
                Ok(c) => match page_with_count(
                    join_first(db@.channel_chats.filter(chats_of_channel(c.id)), db@.users, chat_user_key()),
                    chat_pair_le(),
                    *item,
                ) {
                    Err(e) => Err(e),
                    Ok(p) => Ok((true, p)),
                },
            },
        },
{
    let (_u, s) = match load_space_ctx(db, uid, space_name.info.as_str()) {
        Ok(x) => x,
        Err(e) => return Err(e),
    };
    let c = match find_channel_by_name(db, s.id, space_name.channel.as_str()) {
        Ok(c) => c,
        Err(e) => return Err(e),
    };
    let cid = c.id;
    let pred = |x: &ChannelChat| -> (b: bool) ensures b == chats_of_channel(cid)(*x), { x.space_channel_id == cid };
    let chats = select_rows(&db.channel_chats, pred, Ghost(chats_of_channel(cid)));
    let key = |x: &ChannelChat, u: &User| -> (b: bool) ensures b == chat_user_key()(*x, *u), { u.id == x.user_id };
    let joined = join_rows(&chats, &db.users, key, Ghost(chat_user_key()));
    let le = |a: &(ChannelChat, User), b: &(ChannelChat, User)| -> (x: bool) ensures x == chat_pair_le()(*a, *b), { a.0.id <= b.0.id };
    match paged_with_count(&joined, le, Ghost(chat_pair_le()), item) {
        Ok(p) => Ok(Response::new(true, p)),
        Err(e) => Err(e),
    }
}

/// A message of the given id written by the given user.
pub open spec fn own_chat(id: i32, user_id: i32) -> spec_fn(ChannelChat) -> bool {
    |c: ChannelChat| c.id == id && c.user_id == user_id
}

/// The requesting user deletes one of their channel messages.
pub fn delete_message_db(db: &mut Store, uid: i32, channel_details: &IdPathInfo) -> (r: Result<
    Response<String>,
    DbError,
>)
    ensures
        match user_row(old(db)@, uid) {
            None => r == Err::<Response<String>, DbError>(DbError::NotFound) && final(db)@ == old(db)@,
            Some(u) => final(db)@ == (DbView { channel_chats: delete_where(old(db)@.channel_chats, own_chat(channel_details.id, u.id)), ..old(db)@ })
                && (r matches Ok(resp) && resp@ == (true, "message deleted successfully"@)),
        },
{
    let u = match find_user(db, uid) {
        Some(u) => u,
        None => return Err(DbError::NotFound),
    };
    let id = channel_details.id;
    let me = u.id;
    let pred = |x: &ChannelChat| -> (b: bool) ensures b == own_chat(id, me)(*x), { x.id == id && x.user_id == me };
    delete_rows(&mut db.channel_chats, pred, Ghost(own_chat(id, me)));
    Ok(reply(true, "message deleted successfully"))
}

/// The outcome of posting or editing a message.
pub enum ChatPost<M> {
    /// The requesting user does not exist ("error getting user details").
    NoUser,
    /// The stored message, its author, the live-update channel to push it to
    /// and the name of the event to push.
    Posted(M, User, String, String),
}

/// The answer to a message post or edit.
pub enum ChatReply {
    /// The message was stored: `(true, "message sent successfully")`, or
    /// `(true, "message updated successfully")` for an edit.
    Done(Response<String>),
    /// The requesting user does not exist: an error answer.
    Refused(ResponseError),
}

/// The answer the service gives to the outcome of a post (`edit` false) or
/// an edit (`edit` true) of a message.
pub fn chat_post_reply<M>(post: &ChatPost<M>, edit: bool) -> (r: ChatReply)
    ensures
        match post {
            ChatPost::NoUser => r matches ChatReply::Refused(e) && !e.success && e.error@
                == "error getting user details"@,
            ChatPost::Posted(..) => r matches ChatReply::Done(x) && x@ == (
                true,
                if edit {
                    "message updated successfully"@
                } else {
                    "message sent successfully"@
                },
            ),
        },
{
    match post {
        ChatPost::NoUser => ChatReply::Refused(ResponseError::new(false, String::from_str("error getting user details"))),
        ChatPost::Posted(..) => if edit {
            ChatReply::Done(reply(true, "message updated successfully"))
        } else {
            ChatReply::Done(reply(true, "message sent successfully"))
        },
    }
}

/// A member posts a message to a channel of the named space; the space and
/// channel must exist.
pub fn send_channel_message(db: &mut Store, uid: i32, space_details: &ChannelPathInfo, item: &ChatMessage, now: DateTime) -> (r:
    Result<ChatPost<ChannelChat>, DbError>)
    requires
        old(db)@.ids.channel_chats < i32::MAX,
    ensures
        match space_by_name(old(db)@, space_details.info@) {
            Err(_) => r matches Err(x) && x == DbError::Failure && final(db)@ == old(db)@,
            Ok(s) => match channel_by_name(old(db)@, s.id, space_details.channel@) {
                Err(_) => r matches Err(x) && x == DbError::Failure && final(db)@ == old(db)@,
                Ok(c) => match user_row(old(db)@, uid) {
                    None => r matches Ok(ChatPost::NoUser) && final(db)@ == old(db)@,
                    Some(u) => {
                        let m = ChannelChat {
                            id: old(db)@.ids.channel_chats,
                            user_id: u.id,
                            space_channel_id: c.id,
                            chat: item.chat,
                            created_at: now,
                        };
                        final(db)@ == view_push_channel_chats(old(db)@, m) && (r matches Ok(
                            ChatPost::Posted(x, y, ch, ev),
                        ) && ev@ == "chat_created"@ && x == m && y == u && ch@ == channel_chat_channel_name(
                            s.spaces_name@,
                            c.channel_name@,
                        ))
                    },
                },
            },
        },
{
    let user = find_user(db, uid);
    let s = match find_space_by_name(db, space_details.info.as_str()) {
        Ok(s) => s,
        Err(_) => return Err(DbError::Failure),
    };
    let c = match find_channel_by_name(db, s.id, space_details.channel.as_str()) {
        Ok(c) => c,
        Err(_) => return Err(DbError::Failure),
    };
    match user {
        None => Ok(ChatPost::NoUser),
        Some(u) => {
            let m = db.insert_channel_chats(u.id, c.id, item.chat.clone(), now);
            let ch = channel_chat_channel(&s.spaces_name, &c.channel_name);
            Ok(ChatPost::Posted(m, u, ch, String::from_str("chat_created")))
        },
    }
}

/// The message with the given id.
pub open spec fn chat_id_is(id: i32) -> spec_fn(ChannelChat) -> bool {
    |c: ChannelChat| c.id == id
}

/// A message with new text.
pub open spec fn with_chat_text(text: String) -> spec_fn(ChannelChat) -> ChannelChat {
    |c: ChannelChat| ChannelChat { chat: text, ..c }
}

/// The requesting user edits the text of the channel message `id`; the
/// update is pushed to the channel named by the path.
pub fn update_channel_message(db: &mut Store, uid: i32, space_details: &ChannelPathInfo, id: i32, item: &ChatMessage) -> (r:
    Result<ChatPost<ChannelChat>, DbError>)
    ensures
        match user_row(old(db)@, uid) {
            None => r matches Ok(ChatPost::NoUser) && final(db)@ == old(db)@,
            Some(u) => {
                let w = DbView { channel_chats: update_where(old(db)@.channel_chats, chat_id_is(id), with_chat_text(item.chat)), ..old(db)@ };
                &&& final(db)@ == w
                &&& match first_match(w.channel_chats, chat_id_is(id)) {
                    None => r matches Err(x) && x == DbError::Failure,
                    Some(m) => r matches Ok(ChatPost::Posted(x, y, ch, ev)) && ev@ == "chat_update"@ && x == m && y == u
                        && ch@ == channel_chat_channel_name(space_details.info@, space_details.channel@),
                }
            },
        },
{
    let u = match find_user(db, uid) {
        Some(u) => u,
        None => return Ok(ChatPost::NoUser),
    };
    let text = &item.chat;
    let pred = |x: &ChannelChat| -> (b: bool) ensures b == chat_id_is(id)(*x), { x.id == id };
    let f = |x: &ChannelChat| -> (r: ChannelChat) ensures r == with_chat_text(*text)(*x), { ChannelChat { chat: text.clone(), ..x.duplicate() } };
    update_rows(&mut db.channel_chats, pred, f, Ghost(chat_id_is(id)), Ghost(with_chat_text(*text)));
    match find_row(&db.channel_chats, pred, Ghost(chat_id_is(id))) {
        None => Err(DbError::Failure),
        Some(m) => {
            let ch = channel_chat_channel(&space_details.info, &space_details.channel);
            Ok(ChatPost::Posted(m, u, ch, String::from_str("chat_update")))
        },
    }
}

} // verus!
