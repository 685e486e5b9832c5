//! Replies in the thread of a channel message: listing, deletion, posting and
//! editing.
use crate::controllers::channel_chat_controller::{chat_id_is, ChatPost};
use crate::datetime::DateTime;
use crate::helpers::socket::{thread_chat_channel, thread_chat_channel_name};
use crate::insert::view_push_chat_thread;
use crate::model::{ChannelChat, ChatThread, Row, User};
use crate::queries::{find_user, user_row};
use crate::store::{DbError, DbView, Store};
use crate::table::{
    delete_rows, delete_where, find_row, first_match, join_first, join_rows, select_rows,
    sort_desc, sort_rows_desc, update_rows, update_where,
};
use crate::types::{reply, ChatMessage, IdPathInfo, Response};
use vstd::prelude::*;
use vstd::string::StringExecFns;

verus! {

/// Replies in the thread of the channel message `chat_id`.
pub open spec fn replies_to(chat_id: i32) -> spec_fn(ChatThread) -> bool {
    |t: ChatThread| t.channel_chat_id == chat_id
}

/// A reply and its author.
pub open spec fn reply_user_key() -> spec_fn(ChatThread, User) -> bool {
    |t: ChatThread, u: User| u.id == t.user_id
}

/// Order of (reply, author) pairs by reply id.
pub open spec fn reply_pair_le() -> spec_fn((ChatThread, User), (ChatThread, User)) -> bool {
    |a: (ChatThread, User), b: (ChatThread, User)| a.0.id <= b.0.id
}

/// The thread of a message: its replies with their authors, newest first.
pub open spec fn thread_of(v: DbView, chat_id: i32) -> Seq<(ChatThread, User)> {
    sort_desc(join_first(v.chat_thread.filter(replies_to(chat_id)), v.users, reply_user_key()), reply_pair_le())
}

/// The channel message `id` with its thread; the requesting user and the
/// message must exist.
pub fn get_chat_thread_db(db: &Store, uid: i32, chat_id: &IdPathInfo) -> (r: Result<
    Response<(ChannelChat, Vec<(ChatThread, User)>)>,
    DbError,
>)
    ensures
        match user_row(db@, uid) {
            None => r matches Err(e) && e == DbError::NotFound,
            Some(_) => match first_match(db@.channel_chats, chat_id_is(chat_id.id)) {
                None => r matches Err(e) && e == DbError::NotFound,
                Some(c) => r matches Ok(resp) && resp@ == (true, (c, thread_of(db@, c.id))),
            },
        },
{
    if find_user(db, uid).is_none() {
        return Err(DbError::NotFound);
    }
    let id = chat_id.id;
    let pred = |x: &ChannelChat| -> (b: bool) ensures b == chat_id_is(id)(*x), { x.id == id };
    let c = match find_row(&db.channel_chats, pred, Ghost(chat_id_is(id))) {
        Some(c) => c,
        None => return Err(DbError::NotFound),
    };
    let cid = c.id;
    let sel = |x: &ChatThread| -> (b: bool) ensures b == replies_to(cid)(*x), { x.channel_chat_id == cid };
    let replies = select_rows(&db.chat_thread, sel, Ghost(replies_to(cid)));
    let key = |x: &ChatThread, u: &User| -> (b: bool) ensures b == reply_user_key()(*x, *u), { u.id == x.user_id };
    let joined = join_rows(&replies, &db.users, key, Ghost(reply_user_key()));
    let le = |a: &(ChatThread, User), b: &(ChatThread, User)| -> (x: bool) ensures x == reply_pair_le()(*a, *b), { a.0.id <= b.0.id };
    let sorted = sort_rows_desc(&joined, le, Ghost(reply_pair_le()));
    Ok(Response::new(true, (c, sorted)))
}

/// A reply of the given id written by the given user.
pub open spec fn own_reply(id: i32, user_id: i32) -> spec_fn(ChatThread) -> bool {
    |t: ChatThread| t.id == id && t.user_id == user_id
}

/// The requesting user deletes one of their thread replies.
pub fn delete_message_db(db: &mut Store, uid: i32, chat_id: &IdPathInfo) -> (r: Result<
    Response<String>,
    DbError,
>)
    ensures
        match user_row(old(db)@, uid) {
            None => r == Err::<Response<String>, DbError>(DbError::NotFound) && final(db)@ == old(db)@,
            Some(u) => final(db)@ == (DbView { chat_thread: delete_where(old(db)@.chat_thread, own_reply(chat_id.id, u.id)), ..old(db)@ })
                && (r matches Ok(resp) && resp@ == (true, "message deleted successfully"@)),
        },
{
    let u = match find_user(db, uid) {
        Some(u) => u,
        None => return Err(DbError::NotFound),
    };
    let id = chat_id.id;
    let me = u.id;
    let pred = |x: &ChatThread| -> (b: bool) ensures b == own_reply(id, me)(*x), { x.id == id && x.user_id == me };
    delete_rows(&mut db.chat_thread, pred, Ghost(own_reply(id, me)));
    Ok(reply(true, "message deleted successfully"))
}

/// A user replies in the thread of the channel message `chat_id`, which must
/// exist; the reply is pushed to the thread's live-update channel.
pub fn send_thread_message(db: &mut Store, uid: i32, chat_id: &IdPathInfo, item: &ChatMessage, now: DateTime) -> (r:
    Result<ChatPost<ChatThread>, DbError>)
    requires
        old(db)@.ids.chat_thread < i32::MAX,
    ensures
        match first_match(old(db)@.channel_chats, chat_id_is(chat_id.id)) {
            None => r matches Err(x) && x == DbError::Failure && final(db)@ == old(db)@,
            Some(c) => match user_row(old(db)@, uid) {
                None => r matches Ok(ChatPost::NoUser) && final(db)@ == old(db)@,
                Some(u) => {
                    let m = ChatThread {
                        id: old(db)@.ids.chat_thread,
                        user_id: u.id,
                        space_channel_id: c.space_channel_id,
                        channel_chat_id: c.id,
                        chat: item.chat,
                        created_at: now,
                    };
                    final(db)@ == view_push_chat_thread(old(db)@, m) && (r matches Ok(
                        ChatPost::Posted(x, y, ch, ev),
                    ) && ev@ == "thread_chat_created"@ && x == m && y == u && ch@ == thread_chat_channel_name(
                        c.id as int,
                        c.space_channel_id as int,
                    ))
                },
            },
        },
{
    let user = find_user(db, uid);
    let id = chat_id.id;
    let pred = |x: &ChannelChat| -> (b: bool) ensures b == chat_id_is(id)(*x), { x.id == id };
    let c = match find_row(&db.channel_chats, pred, Ghost(chat_id_is(id))) {
        Some(c) => c,
        None => return Err(DbError::Failure),
    };
    match user {
        None => Ok(ChatPost::NoUser),
        Some(u) => {
            let m = db.insert_chat_thread(u.id, c.space_channel_id, c.id, item.chat.clone(), now);
            let ch = thread_chat_channel(c.id, c.space_channel_id);
            Ok(ChatPost::Posted(m, u, ch, String::from_str("thread_chat_created")))
        },
    }
}

/// The reply with the given id.
pub open spec fn reply_id_is(id: i32) -> spec_fn(ChatThread) -> bool {
    |t: ChatThread| t.id == id
}

/// A reply with new text.
pub open spec fn with_reply_text(text: String) -> spec_fn(ChatThread) -> ChatThread {
    |t: ChatThread| ChatThread { chat: text, ..t }
}

/// A user edits the text of the reply `id` in the thread of the channel
/// message `chat_id`, which must exist; the edited reply is pushed to the
/// thread's live-update channel.
pub fn update_thread_message(db: &mut Store, uid: i32, id: i32, chat_id: i32, item: &ChatMessage) -> (r:
    Result<ChatPost<ChatThread>, DbError>)
    ensures
        match first_match(old(db)@.channel_chats, chat_id_is(chat_id)) {
            None => r matches Err(x) && x == DbError::Failure && final(db)@ == old(db)@,
            Some(c) => match user_row(old(db)@, uid) {
                None => r matches Ok(ChatPost::NoUser) && final(db)@ == old(db)@,
                Some(u) => {
                    let w = DbView { chat_thread: update_where(old(db)@.chat_thread, reply_id_is(id), with_reply_text(item.chat)), ..old(db)@ };
                    &&& final(db)@ == w
                    &&& match first_match(w.chat_thread, reply_id_is(id)) {
                        None => r matches Err(x) && x == DbError::Failure,
                        Some(m) => r matches Ok(ChatPost::Posted(x, y, ch, ev)) && ev@ == "thread_chat_update"@ && x == m && y == u
                            && ch@ == thread_chat_channel_name(c.id as int, c.space_channel_id as int),
                    }
                },
            },
        },
{
    let user = find_user(db, uid);
    let pred = |x: &ChannelChat| -> (b: bool) ensures b == chat_id_is(chat_id)(*x), { x.id == chat_id };
    let c = match find_row(&db.channel_chats, pred, Ghost(chat_id_is(chat_id))) {
        Some(c) => c,
        None => return Err(DbError::Failure),
    };
    let u = match user {
        Some(u) => u,
        None => return Ok(ChatPost::NoUser),
    };
    let text = &item.chat;
    let rp = |x: &ChatThread| -> (b: bool) ensures b == reply_id_is(id)(*x), { x.id == id };
    let f = |x: &ChatThread| -> (r: ChatThread) ensures r == with_reply_text(*text)(*x), { ChatThread { chat: text.clone(), ..x.duplicate() } };
    update_rows(&mut db.chat_thread, rp, f, Ghost(reply_id_is(id)), Ghost(with_reply_text(*text)));
    match find_row(&db.chat_thread, rp, Ghost(reply_id_is(id))) {
        None => Err(DbError::Failure),
        Some(m) => {
            let ch = thread_chat_channel(c.id, c.space_channel_id);
            Ok(ChatPost::Posted(m, u, ch, String::from_str("thread_chat_update")))
        },
    }
}

} // verus!
