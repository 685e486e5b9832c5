use spacies::controllers::channel_chat_controller::{
    delete_message_db as delete_channel_message, get_all_message_db as channel_messages,
    send_channel_message, update_channel_message, chat_post_reply, ChatPost, ChatReply,
};
use spacies::controllers::chat_thread_controller::{
    delete_message_db as delete_reply, get_chat_thread_db, send_thread_message,
    update_thread_message,
};
use spacies::controllers::space_controller::{add_space_db, invite_user_db};
use spacies::controllers::user_chat_controller::{
    delete_message_db as delete_direct, get_all_message_db as direct_messages, get_chat_list_db,
    send_user_message, update_user_message,
};
use spacies::controllers::user_controller::{add_user_db, verify_user_db};
use spacies::datetime::DateTime;
use spacies::store::{DbError, Store};
use spacies::types::{
    ChannelPathInfo, ChatMessage, CreateSpace, CreateUser, IdPathInfo, InviteToSpace,
    MultiIdPathInfo, PaginateQuery, PathInfo,
};

fn at(minute: u32) -> DateTime {
    DateTime { year: 2023, month: 3, day: 14, hour: 9, minute, second: 0, nanosecond: 0 }
}

fn register(db: &mut Store, name: &str, email: &str) -> i32 {
    let form = CreateUser { username: name.to_string(), email: email.to_string(), user_password: "secret1".to_string() };
    match add_user_db(db, &form, at(0), &"s3cret".to_string()) {
        Ok((r, _)) if r.success => db.users.last().unwrap().id,
        _ => panic!("registration failed"),
    }
}

fn acme() -> Store {
    let mut db = Store::new();
    let admin = register(&mut db, "ann", "ann@x.io");
    let other = register(&mut db, "bob", "bob@x.io");
    verify_user_db(&mut db, admin);
    verify_user_db(&mut db, other);
    add_space_db(&mut db, admin, &CreateSpace { spaces_name: "Acme".to_string(), spaces_desc: "d".to_string() }, at(0)).unwrap();
    invite_user_db(&mut db, admin, &PathInfo { info: "Acme".to_string() }, &InviteToSpace { email: vec!["bob@x.io".to_string()] }, at(0), &"s3cret".to_string()).unwrap();
    db
}

fn general() -> ChannelPathInfo {
    ChannelPathInfo { info: "Acme".to_string(), channel: "General".to_string() }
}

fn text(s: &str) -> ChatMessage {
    ChatMessage { chat: s.to_string() }
}

#[test]
fn channel_messages_are_posted_listed_edited_and_deleted() {
    let mut db = acme();
    match send_channel_message(&mut db, 1, &general(), &text("hello"), at(1)).unwrap() {
        ChatPost::Posted(m, u, ch, ev) => {
            assert_eq!(ev, "chat_created");
            assert_eq!(m.chat, "hello");
            assert_eq!(u.id, 1);
            assert_eq!(ch, "Acme-General");
        }
        ChatPost::NoUser => panic!("user missing"),
    }
    send_channel_message(&mut db, 2, &general(), &text("hi"), at(2)).unwrap();
    assert!(matches!(send_channel_message(&mut db, 9, &general(), &text("?"), at(3)), Ok(ChatPost::NoUser)));
    let nowhere = ChannelPathInfo { info: "Nowhere".to_string(), channel: "General".to_string() };
    assert!(matches!(send_channel_message(&mut db, 1, &nowhere, &text("?"), at(3)), Err(DbError::Failure)));
    let page = channel_messages(&db, 1, &general(), &PaginateQuery { page: 1, per_page: 10 }).unwrap();
    let (rows, pages) = page.message;
    assert_eq!(pages, 1);
    assert_eq!(rows[0].0.chat, "hi");
    assert_eq!(rows[0].1.id, 2);
    assert_eq!(rows[1].0.chat, "hello");
    match update_channel_message(&mut db, 1, &general(), 1, &text("hello!")).unwrap() {
        ChatPost::Posted(m, _, _, ev) => assert_eq!((m.chat.as_str(), ev.as_str()), ("hello!", "chat_update")),
        ChatPost::NoUser => panic!("user missing"),
    }
    delete_channel_message(&mut db, 2, &IdPathInfo { id: 1 }).unwrap();
    assert_eq!(db.channel_chats.len(), 2);
    let r = delete_channel_message(&mut db, 1, &IdPathInfo { id: 1 }).unwrap();
    assert_eq!(r.message, "message deleted successfully");
    assert_eq!(db.channel_chats.len(), 1);
}

#[test]
fn thread_replies() {
    let mut db = acme();
    send_channel_message(&mut db, 1, &general(), &text("root"), at(1)).unwrap();
    match send_thread_message(&mut db, 2, &IdPathInfo { id: 1 }, &text("re"), at(2)).unwrap() {
        ChatPost::Posted(m, u, ch, ev) => {
            assert_eq!(ev, "thread_chat_created");
            assert_eq!(m.channel_chat_id, 1);
            assert_eq!(u.id, 2);
            assert_eq!(ch, format!("thread-chat-1-{}", db.spaces_channel[0].id));
        }
        ChatPost::NoUser => panic!("user missing"),
    }
    send_thread_message(&mut db, 1, &IdPathInfo { id: 1 }, &text("re2"), at(3)).unwrap();
    assert!(matches!(send_thread_message(&mut db, 1, &IdPathInfo { id: 7 }, &text("x"), at(4)), Err(DbError::Failure)));
    let t = get_chat_thread_db(&db, 1, &IdPathInfo { id: 1 }).unwrap();
    assert_eq!(t.message.0.chat, "root");
    assert_eq!(t.message.1.len(), 2);
    assert_eq!(t.message.1[0].0.chat, "re2");
    assert!(matches!(get_chat_thread_db(&db, 1, &IdPathInfo { id: 5 }), Err(DbError::NotFound)));
    match update_thread_message(&mut db, 2, 1, 1, &text("edited")).unwrap() {
        ChatPost::Posted(m, _, _, ev) => assert_eq!((m.chat.as_str(), ev.as_str()), ("edited", "thread_chat_update")),
        ChatPost::NoUser => panic!("user missing"),
    }
    delete_reply(&mut db, 2, &IdPathInfo { id: 1 }).unwrap();
    assert_eq!(db.chat_thread.len(), 1);
}

#[test]
fn direct_messages_keep_both_chat_lists() {
    let mut db = acme();
    let sid = db.spaces[0].id;
    match send_user_message(&mut db, 1, &IdPathInfo { id: 2 }, &text("psst"), sid, at(1)) {
        ChatPost::Posted(m, _, ch, ev) => {
            assert_eq!(ev, "user_chat_created");
            assert_eq!(m.reciever, 2);
            assert_eq!(ch, "user-chat-1-2");
        }
        ChatPost::NoUser => panic!("user missing"),
    }
    // First contact adds two entries, both from the sender's side.
    assert_eq!(db.unread_user_chat.len(), 2);
    assert!(db.unread_user_chat.iter().all(|c| c.user_id == 1 && c.other == 2));
    // Bob lists nobody: the entries name Ann as owner and Bob as the other side.
    let bob = get_chat_list_db(&db, 2, &PathInfo { info: "Acme".to_string() }).unwrap();
    assert_eq!(bob.message.len(), 2);
    assert_eq!(bob.message[0].id, 1);
    send_user_message(&mut db, 2, &IdPathInfo { id: 1 }, &text("yes?"), sid, at(5));
    assert_eq!(db.unread_user_chat.len(), 2);
    assert!(db.unread_user_chat.iter().all(|c| c.updated_at == at(5)));
    assert!(matches!(get_chat_list_db(&db, 2, &PathInfo { info: "None".to_string() }), Err(DbError::Failure)));
    assert!(matches!(send_user_message(&mut db, 9, &IdPathInfo { id: 1 }, &text("?"), sid, at(6)), ChatPost::NoUser));
}

#[test]
fn direct_conversation_paging_edit_and_delete() {
    let mut db = acme();
    let sid = db.spaces[0].id;
    send_user_message(&mut db, 1, &IdPathInfo { id: 2 }, &text("a"), sid, at(1));
    send_user_message(&mut db, 1, &IdPathInfo { id: 2 }, &text("b"), sid, at(2));
    send_user_message(&mut db, 2, &IdPathInfo { id: 1 }, &text("c"), sid, at(3));
    let page = direct_messages(&db, 1, &IdPathInfo { id: 2 }, &PaginateQuery { page: 1, per_page: 1 }).unwrap();
    let (rows, pages) = page.message;
    assert_eq!(rows.len(), 1);
    assert_eq!(rows[0].0.chat, "b");
    assert_eq!(pages, 2);
    match update_user_message(&mut db, 1, &MultiIdPathInfo { user_id: 1, chat_id: 1 }, &text("A")).unwrap() {
        ChatPost::Posted(m, _, ch, ev) => {
            assert_eq!(ev, "user_chat_update");
            assert_eq!(m.chat, "A");
            assert_eq!(ch, "user-chat-1-1");
        }
        ChatPost::NoUser => panic!("user missing"),
    }
    assert!(matches!(update_user_message(&mut db, 1, &MultiIdPathInfo { user_id: 1, chat_id: 40 }, &text("A")), Err(DbError::Failure)));
    delete_direct(&mut db, 2, &IdPathInfo { id: 1 }).unwrap();
    assert_eq!(db.user_chat.len(), 3);
    delete_direct(&mut db, 1, &IdPathInfo { id: 1 }).unwrap();
    assert_eq!(db.user_chat.len(), 2);
    assert!(matches!(direct_messages(&db, 7, &IdPathInfo { id: 8 }, &PaginateQuery { page: 1, per_page: 1 }), Err(DbError::NotFound)));
}

#[test]
fn chat_replies_name_the_outcome() {
    let mut db = acme();
    let post = send_channel_message(&mut db, 1, &general(), &text("hello"), at(1)).unwrap();
    match chat_post_reply(&post, false) {
        ChatReply::Done(r) => assert_eq!((r.success, r.message.as_str()), (true, "message sent successfully")),
        ChatReply::Refused(_) => panic!("refused"),
    }
    match chat_post_reply(&post, true) {
        ChatReply::Done(r) => assert_eq!((r.success, r.message.as_str()), (true, "message updated successfully")),
        ChatReply::Refused(_) => panic!("refused"),
    }
    let missing = send_channel_message(&mut db, 9, &general(), &text("?"), at(2)).unwrap();
    match chat_post_reply(&missing, false) {
        ChatReply::Refused(e) => assert_eq!((e.success, e.error.as_str()), (false, "error getting user details")),
        ChatReply::Done(_) => panic!("accepted"),
    }
}
