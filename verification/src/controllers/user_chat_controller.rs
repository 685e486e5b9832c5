//! Direct messages between users: the chat list, the conversation, deletion,
//! posting (with upkeep of both users' chat lists) and editing.
use crate::controllers::channel_chat_controller::{page_with_count, paged_with_count, ChatPost};
use crate::datetime::{dt_le, dt_not_after, DateTime};
use crate::helpers::socket::{user_chat_channel, user_chat_channel_name};
use crate::insert::{view_push_unread_user_chat, view_push_user_chat};
use crate::model::{ChatList, Row, User, UserChat};
use crate::queries::{find_space_by_name, find_user, space_by_name, user_row};
use crate::store::{rview, DbError, DbView, Store};
use crate::table::{
    any_match, delete_rows, delete_where, find_index, find_row, first_match, join_first, join_rows,
    select_rows, sort_desc, sort_rows_desc, update_rows, update_where,
};
use crate::types::{reply, ChatMessage, IdPathInfo, MultiIdPathInfo, PaginateQuery, PathInfo, Response};
use vstd::prelude::*;
use vstd::string::StringExecFns;

verus! {

/// Chat-list entries of `user_id` in the space `space_id`.
pub open spec fn listed_for(user_id: i32, space_id: i32) -> spec_fn(ChatList) -> bool {
    |c: ChatList| c.other == user_id && c.space_id == space_id
}

/// Order of chat-list entries by the time of their last message.
pub open spec fn entry_updated_le() -> spec_fn(ChatList, ChatList) -> bool {
    |a: ChatList, b: ChatList| dt_le(a.updated_at, b.updated_at)
}

/// Every entry names an existing user.
pub open spec fn partners_exist(v: DbView, l: Seq<ChatList>) -> bool {
    forall|i: int| 0 <= i < l.len() ==> #[trigger] user_row(v, l[i].user_id) is Some
}

/// The users named by the entries, in order.
pub open spec fn partners(v: DbView, l: Seq<ChatList>) -> Seq<User> {
    Seq::new(l.len(), |i: int| user_row(v, l[i].user_id)->0)
}

/// The users named by chat-list entries, in order; `None` where one of them
/// does not exist.
fn load_partners(db: &Store, l: &Vec<ChatList>) -> (r: Option<Vec<User>>)
    ensures
        match r {
            Some(us) => partners_exist(db@, l@) && us@ == partners(db@, l@),
            None => !partners_exist(db@, l@),
        },
{
    let mut out: Vec<User> = Vec::new();
    let mut i: usize = 0;
    while i < l.len()
        invariant
            i <= l.len(),
            forall|j: int| 0 <= j < i ==> #[trigger] user_row(db@, l@[j].user_id) is Some,
            out@ == Seq::new(i as nat, |j: int| user_row(db@, l@[j].user_id)->0),
        decreases l.len() - i,
    {
        match find_user(db, l[i].user_id) {
            None => {
                assert(user_row(db@, l@[i as int].user_id) is None);
                return None;
            },
            Some(u) => {
                out.push(u);
                i = i + 1;
                assert(out@ =~= Seq::new(i as nat, |j: int| user_row(db@, l@[j].user_id)->0));
            },
        }
    }
    assert(partners(db@, l@) =~= out@);
    Some(out)
}

/// The chat list of a user in a space: the entries listing the user, most
/// recently updated first.
pub open spec fn chat_list_of(v: DbView, uid: i32, space_id: i32) -> Seq<ChatList> {
    sort_desc(v.unread_user_chat.filter(listed_for(uid, space_id)), entry_updated_le())
}

/// The users the requesting user has direct conversations with in the named
/// space, most recent first; the space must exist.
pub fn get_chat_list_db(db: &Store, uid: i32, space: &PathInfo) -> (r: Result<Response<Vec<User>>, DbError>)
    ensures
        match space_by_name(db@, space.info@) {
            Err(_) => r matches Err(e) && e == DbError::Failure,
            Ok(s) => {
                let l = chat_list_of(db@, uid, s.id);
                if partners_exist(db@, l) {
                    r matches Ok(resp) && resp@ == (true, partners(db@, l))
                } else {
                    r matches Err(e) && e == DbError::NotFound
                }
            },
        },
{
    let s = match find_space_by_name(db, space.info.as_str()) {
        Ok(s) => s,
        Err(_) => return Err(DbError::Failure),
    };
    let sid = s.id;
    let pred = |x: &ChatList| -> (b: bool) ensures b == listed_for(uid, sid)(*x), { x.other == uid && x.space_id == sid };
    let entries = select_rows(&db.unread_user_chat, pred, Ghost(listed_for(uid, sid)));
    let le = |a: &ChatList, b: &ChatList| -> (x: bool) ensures x == entry_updated_le()(*a, *b), { dt_not_after(&a.updated_at, &b.updated_at) };
    let sorted = sort_rows_desc(&entries, le, Ghost(entry_updated_le()));
    match load_partners(db, &sorted) {
        Some(us) => Ok(Response::new(true, us)),
        None => Err(DbError::NotFound),
    }
}

/// A user whose id is one of the two.
pub open spec fn user_id_either(a: i32, b: i32) -> spec_fn(User) -> bool {
    |u: User| u.id == a || u.id == b
}

/// Messages sent by `sender` to itself or to `other`.
pub open spec fn sent_between(sender: i32, other: i32) -> spec_fn(UserChat) -> bool {
    |c: UserChat| c.user_id == sender && (c.reciever == sender || c.reciever == other)
}

/// A direct message and its sender.
pub open spec fn sender_key() -> spec_fn(UserChat, User) -> bool {
    |c: UserChat, u: User| u.id == c.user_id
}

/// Order of (message, sender) pairs by message id.
pub open spec fn message_pair_le() -> spec_fn((UserChat, User), (UserChat, User)) -> bool {
    |a: (UserChat, User), b: (UserChat, User)| a.0.id <= b.0.id
}

/// The conversation with another user: the first user (in table order) that
/// is either the requesting user or the other one is taken as the sender,
/// and that user's messages to themself or to the other user are listed with
/// their sender, newest first, paginated, with the number of pages.
pub fn get_all_message_db(db: &Store, uid: i32, other_user_id: &IdPathInfo, item: &PaginateQuery) -> (r:
    Result<Response<(Vec<(UserChat, User)>, i64)>, DbError>)
    ensures
        rview(r) == match first_match(db@.users, user_id_either(uid, other_user_id.id)) {
            None => Err(DbError::NotFound),
            Some(x) => match page_with_count(
                join_first(db@.user_chat.filter(sent_between(x.id, other_user_id.id)), db@.users, sender_key()),
                message_pair_le(),
                *item,
            ) {
                Err(e) => Err(e),
                Ok(p) => Ok((true, p)),
            },
        },
{
    let other = other_user_id.id;
    let up = |u: &User| -> (b: bool) ensures b == user_id_either(uid, other)(*u), { u.id == uid || u.id == other };
    let x = match find_row(&db.users, up, Ghost(user_id_either(uid, other))) {
        Some(x) => x,
        None => return Err(DbError::NotFound),
    };
    let xid = x.id;
    let pred = |c: &UserChat| -> (b: bool) ensures b == sent_between(xid, other)(*c), { c.user_id == xid && (c.reciever == xid || c.reciever == other) };
    let chats = select_rows(&db.user_chat, pred, Ghost(sent_between(xid, other)));
    let key = |c: &UserChat, u: &User| -> (b: bool) ensures b == sender_key()(*c, *u), { u.id == c.user_id };
    let joined = join_rows(&chats, &db.users, key, Ghost(sender_key()));
    let le = |a: &(UserChat, User), b: &(UserChat, User)| -> (x: bool) ensures x == message_pair_le()(*a, *b), { a.0.id <= b.0.id };
    match paged_with_count(&joined, le, Ghost(message_pair_le()), item) {
        Ok(p) => Ok(Response::new(true, p)),
        Err(e) => Err(e),
    }
}

/// A direct message of the given id sent by the given user.
pub open spec fn own_message(id: i32, user_id: i32) -> spec_fn(UserChat) -> bool {
    |c: UserChat| c.id == id && c.user_id == user_id
}

/// The requesting user deletes one of the direct messages they sent.
pub fn delete_message_db(db: &mut Store, uid: i32, chat_id: &IdPathInfo) -> (r: Result<
    Response<String>,
    DbError,
>)
    ensures
        match user_row(old(db)@, uid) {
            None => r == Err::<Response<String>, DbError>(DbError::NotFound) && final(db)@ == old(db)@,
            Some(u) => final(db)@ == (DbView { user_chat: delete_where(old(db)@.user_chat, own_message(chat_id.id, u.id)), ..old(db)@ })
                && (r matches Ok(resp) && resp@ == (true, "message deleted successfully"@)),
        },
{
    let u = match find_user(db, uid) {
        Some(u) => u,
        None => return Err(DbError::NotFound),
    };
    let id = chat_id.id;
    let me = u.id;
    let pred = |x: &UserChat| -> (b: bool) ensures b == own_message(id, me)(*x), { x.id == id && x.user_id == me };
    delete_rows(&mut db.user_chat, pred, Ghost(own_message(id, me)));
    Ok(reply(true, "message deleted successfully"))
}

/// The chat-list entry of `user_id` naming `other`.
pub open spec fn entry_of(user_id: i32, other: i32) -> spec_fn(ChatList) -> bool {
    |c: ChatList| c.user_id == user_id && c.other == other
}

/// A chat-list entry touched at `now`.
pub open spec fn touched(now: DateTime) -> spec_fn(ChatList) -> ChatList {
    |c: ChatList| ChatList { updated_at: now, ..c }
}

/// The chat lists after a message from `sender` to `other`: where `other`
/// already lists `sender`, the entries between the two are touched in both
/// directions; otherwise two entries from `sender` to `other` are added.
pub open spec fn chat_lists_after(v: DbView, sender: i32, other: i32, space_id: i32, now: DateTime) -> DbView {
    if any_match(v.unread_user_chat, entry_of(other, sender)) {
        let once = update_where(v.unread_user_chat, entry_of(other, sender), touched(now));
        DbView { unread_user_chat: update_where(once, entry_of(sender, other), touched(now)), ..v }
    } else {
        let e1 = ChatList { id: v.ids.unread_user_chat, user_id: sender, other, updated_at: now, space_id };
        let v1 = view_push_unread_user_chat(v, e1);
        let e2 = ChatList { id: v1.ids.unread_user_chat, user_id: sender, other, updated_at: now, space_id };
        view_push_unread_user_chat(v1, e2)
    }
}

/// Keeps the two users' chat lists up to date after a message.
fn refresh_chat_lists(db: &mut Store, sender: i32, other: i32, space_id: i32, now: DateTime)
    requires
        old(db)@.ids.unread_user_chat + 2 <= i32::MAX,
    ensures
        final(db)@ == chat_lists_after(old(db)@, sender, other, space_id, now),
{
    let back = |x: &ChatList| -> (b: bool) ensures b == entry_of(other, sender)(*x), { x.user_id == other && x.other == sender };
    match find_index(&db.unread_user_chat, back, Ghost(entry_of(other, sender))) {
        Some(_) => {
            let t = |x: &ChatList| -> (r: ChatList) ensures r == touched(now)(*x), { ChatList { updated_at: now, ..x.duplicate() } };
            update_rows(&mut db.unread_user_chat, back, t, Ghost(entry_of(other, sender)), Ghost(touched(now)));
            let fwd = |x: &ChatList| -> (b: bool) ensures b == entry_of(sender, other)(*x), { x.user_id == sender && x.other == other };
            update_rows(&mut db.unread_user_chat, fwd, t, Ghost(entry_of(sender, other)), Ghost(touched(now)));
        },
        None => {
            db.insert_unread_user_chat(sender, other, now, space_id);
            db.insert_unread_user_chat(sender, other, now, space_id);
        },
    }
}

/// A user sends a direct message to `other_user_id` (in the space
/// `space_id`); both users' chat lists are brought up to date and the message
/// is pushed to the conversation's live-update channel.
pub fn send_user_message(db: &mut Store, uid: i32, other_user_id: &IdPathInfo, item: &ChatMessage, space_id: i32, now: DateTime) -> (r:
    ChatPost<UserChat>)
    requires
        old(db)@.ids.user_chat < i32::MAX,
        old(db)@.ids.unread_user_chat + 2 <= i32::MAX,
    ensures
        match user_row(old(db)@, uid) {
            None => r matches ChatPost::NoUser && final(db)@ == old(db)@,
            Some(u) => {
                let m = UserChat {
                    id: old(db)@.ids.user_chat,
                    user_id: u.id,
                    reciever: other_user_id.id,
                    chat: item.chat,
                    created_at: now,
                };
                &&& final(db)@ == chat_lists_after(view_push_user_chat(old(db)@, m), u.id, other_user_id.id, space_id, now)
                &&& r matches ChatPost::Posted(x, y, ch, ev) && ev@ == "user_chat_created"@ && x == m && y == u
                    && ch@ == user_chat_channel_name(u.id as int, other_user_id.id as int)
            },
        },
{
    let u = match find_user(db, uid) {
        Some(u) => u,
        None => return ChatPost::NoUser,
    };
    let other = other_user_id.id;
    let m = db.insert_user_chat(u.id, other, item.chat.clone(), now);
    let ch = user_chat_channel(u.id, other);
    refresh_chat_lists(db, u.id, other, space_id, now);
    ChatPost::Posted(m, u, ch, String::from_str("user_chat_created"))
}

/// The direct message with the given id.
pub open spec fn message_id_is(id: i32) -> spec_fn(UserChat) -> bool {
    |c: UserChat| c.id == id
}

/// A direct message with new text.
pub open spec fn with_message_text(text: String) -> spec_fn(UserChat) -> UserChat {
    |c: UserChat| UserChat { chat: text, ..c }
}

/// A user edits a direct message: the text of the message whose id is the
/// path's `user_id` is replaced, and the message `chat_id` is read back and
/// pushed to the channel of the conversation with `user_id`.
pub fn update_user_message(db: &mut Store, uid: i32, ids: &MultiIdPathInfo, item: &ChatMessage) -> (r:
    Result<ChatPost<UserChat>, DbError>)
    ensures
        match user_row(old(db)@, uid) {
            None => r matches Ok(ChatPost::NoUser) && final(db)@ == old(db)@,
            Some(u) => {
                let w = DbView { user_chat: update_where(old(db)@.user_chat, message_id_is(ids.user_id), with_message_text(item.chat)), ..old(db)@ };
                &&& final(db)@ == w
                &&& match first_match(w.user_chat, message_id_is(ids.chat_id)) {
                    None => r matches Err(x) && x == DbError::Failure,
                    Some(m) => r matches Ok(ChatPost::Posted(x, y, ch, ev)) && ev@ == "user_chat_update"@ && x == m && y == u
                        && ch@ == user_chat_channel_name(u.id as int, ids.user_id as int),
                }
            },
        },
{
    let u = match find_user(db, uid) {
        Some(u) => u,
        None => return Ok(ChatPost::NoUser),
    };
    let target = ids.user_id;
    let text = &item.chat;
    let pred = |x: &UserChat| -> (b: bool) ensures b == message_id_is(target)(*x), { x.id == target };
    let f = |x: &UserChat| -> (r: UserChat) ensures r == with_message_text(*text)(*x), { UserChat { chat: text.clone(), ..x.duplicate() } };
    update_rows(&mut db.user_chat, pred, f, Ghost(message_id_is(target)), Ghost(with_message_text(*text)));
    let cid = ids.chat_id;
    let read = |x: &UserChat| -> (b: bool) ensures b == message_id_is(cid)(*x), { x.id == cid };
    match find_row(&db.user_chat, read, Ghost(message_id_is(cid))) {
        None => Err(DbError::Failure),
        Some(m) => {
            let ch = user_chat_channel(u.id, target);
            Ok(ChatPost::Posted(m, u, ch, String::from_str("user_chat_update")))
        },
    }
}

} // verus!
