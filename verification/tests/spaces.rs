use spacies::controllers::channel_controller::{
    create_new_channel_db, delete_channel_db, edit_channel_name_db, get_channel_details_db,
    get_channels_in_space_db,
};
use spacies::controllers::channel_user_controller::{
    add_user_to_channel_db, change_user_admin_status_db, get_channel_admin_status_db,
    leave_channel_db, remove_user_from_channel_db,
};
use spacies::controllers::space_controller::{
    add_invited_user_db, add_space_db, change_user_priviledge_status_db, finish_logo_upload,
    get_space_db, get_user_space_db, get_user_space_status_db, get_users_in_space_db,
    invite_user_db, leave_space_db, remove_user_from_space_db, space_logo_access,
    update_space_db, LogoAccess,
};
use spacies::controllers::user_controller::{add_user_db, verify_user_db};
use spacies::auth::decode_token;
use spacies::datetime::DateTime;
use spacies::helpers::email_template::{added_user, invite_user};
use spacies::store::{DbError, Store};
use spacies::types::{
    AddUserToFoldr, ChannelField, ChannelPathInfo, CreateSpace, CreateUser, DeleteMailList,
    InviteToSpace, PathInfo, PriviledgeStruct, UserIdStruct,
};

fn now() -> DateTime {
    DateTime { year: 2023, month: 3, day: 14, hour: 9, minute: 30, second: 0, nanosecond: 0 }
}

fn register(db: &mut Store, name: &str, email: &str) -> i32 {
    let form = CreateUser { username: name.to_string(), email: email.to_string(), user_password: "secret1".to_string() };
    match add_user_db(db, &form, now(), &"s3cret".to_string()) {
        Ok((r, _)) if r.success => db.users.last().unwrap().id,
        _ => panic!("registration failed"),
    }
}

/// A date far enough ahead that tokens issued then are not yet expired.
fn later() -> DateTime {
    DateTime { year: 2099, month: 1, day: 2, hour: 0, minute: 0, second: 0, nanosecond: 0 }
}

fn path(name: &str) -> PathInfo {
    PathInfo { info: name.to_string() }
}

fn channel(space: &str, name: &str) -> ChannelPathInfo {
    ChannelPathInfo { info: space.to_string(), channel: name.to_string() }
}

/// A store with a verified admin (id 1) owning the space "Acme", and a
/// second verified user (id 2) who is not a member.
fn acme() -> Store {
    let mut db = Store::new();
    let admin = register(&mut db, "ann", "ann@x.io");
    let other = register(&mut db, "bob", "bob@x.io");
    verify_user_db(&mut db, admin);
    verify_user_db(&mut db, other);
    let item = CreateSpace { spaces_name: "Acme".to_string(), spaces_desc: "rockets".to_string() };
    let r = add_space_db(&mut db, admin, &item, now()).unwrap();
    assert!(r.success);
    db
}

#[test]
fn unverified_user_cannot_add_space() {
    let mut db = Store::new();
    let id = register(&mut db, "ann", "ann@x.io");
    let item = CreateSpace { spaces_name: "Acme".to_string(), spaces_desc: "d".to_string() };
    let r = add_space_db(&mut db, id, &item, now()).unwrap();
    assert!(!r.success);
    assert!(r.message.unwrap().starts_with("only verified users are allowed to add space"));
    assert!(db.spaces.is_empty());
}

#[test]
fn add_space_makes_creator_admin_of_space_and_general_channel() {
    let db = acme();
    assert_eq!(db.spaces.len(), 1);
    assert_eq!(db.spaces[0].spaces_name, "Acme");
    assert_eq!(db.spaces[0].spaces_img, "");
    assert_eq!(db.spaces_users.len(), 1);
    assert!(db.spaces_users[0].admin_status);
    assert_eq!(db.spaces_users[0].user_id, 1);
    assert_eq!(db.spaces_channel.len(), 1);
    assert_eq!(db.spaces_channel[0].channel_name, "General");
    assert_eq!(db.channel_users.len(), 1);
    assert!(db.channel_users[0].channel_admin);
}

#[test]
fn space_name_is_taken_ignoring_case() {
    let mut db = acme();
    let item = CreateSpace { spaces_name: "ACME".to_string(), spaces_desc: "again".to_string() };
    let r = add_space_db(&mut db, 1, &item, now()).unwrap();
    assert!(!r.success);
    assert_eq!(r.message.unwrap(), "space name is already taken. Please select a new name");
    assert_eq!(db.spaces.len(), 1);
}

#[test]
fn created_space_is_found_by_its_name() {
    let db = acme();
    let r = get_space_db(&db, 1, &path("Acme")).unwrap();
    assert_eq!(r.message.id, db.spaces[0].id);
    assert!(get_user_space_status_db(&db, 1, &path("acme")).unwrap().message);
    assert!(matches!(get_space_db(&db, 2, &path("Acme")), Err(DbError::NotFound)));
    assert!(matches!(get_space_db(&db, 1, &path("Acme\\")), Err(DbError::BadPattern)));
}

#[test]
fn invitations_add_registered_users_once_and_invite_others() {
    let mut db = acme();
    let item = InviteToSpace { email: vec!["bob@x.io".to_string(), "new@x.io".to_string(), "BOB@x.io".to_string()] };
    let (r, mails) = invite_user_db(&mut db, 1, &path("Acme"), &item, later(), &"s3cret".to_string()).unwrap();
    assert!(r.success);
    assert_eq!(r.message, "invite sent successfully");
    assert_eq!(mails.len(), 2);
    let added = mails[0].as_ref().unwrap();
    assert_eq!((added.to.as_str(), added.name.as_str(), added.subject.as_str()), ("bob@x.io", "bob", "Added to new space"));
    assert_eq!(added.body, added_user(&"Acme".to_string()));
    let invited = mails[1].as_ref().unwrap();
    assert_eq!((invited.to.as_str(), invited.name.as_str(), invited.subject.as_str()), ("new@x.io", "Spacer", "Invite to join a Space"));
    let start = invited.body.find("token=").unwrap() + 6;
    let end = invited.body.find("'>click").unwrap();
    let token = invited.body[start..end].to_string();
    assert_eq!(invited.body, invite_user(&"Acme".to_string(), &token));
    assert_eq!(decode_token(&token, &"s3cret".to_string()), Some(db.spaces[0].id.to_string()));
    let members = db.spaces_users.iter().filter(|m| m.user_id == 2).count();
    assert_eq!(members, 1);
    let in_general = db.channel_users.iter().filter(|c| c.user_id == 2).count();
    assert_eq!(in_general, 1);
    let listed = get_users_in_space_db(&db, &path("Acme")).unwrap();
    assert_eq!(listed.message.len(), 2);
}

#[test]
fn only_admins_invite() {
    let mut db = acme();
    invite_user_db(&mut db, 1, &path("Acme"), &InviteToSpace { email: vec!["bob@x.io".to_string()] }, now(), &"s3cret".to_string()).unwrap();
    let (r, mails) = invite_user_db(&mut db, 2, &path("Acme"), &InviteToSpace { email: vec!["x@x.io".to_string()] }, now(), &"s3cret".to_string()).unwrap();
    assert_eq!(r.message, "Only admin is permitted to invite users to this space");
    assert!(mails.is_empty());
}

#[test]
fn invited_person_registers_into_the_space() {
    let mut db = acme();
    let form = CreateUser { username: "cat".to_string(), email: "cat@x.io".to_string(), user_password: "secret1".to_string() };
    let r = add_invited_user_db(&mut db, 1, &form, now()).unwrap();
    assert_eq!(r.message, "Space account created successfully");
    let cat = db.users.last().unwrap().clone();
    assert!(cat.verified);
    assert!(db.spaces_users.iter().any(|m| m.user_id == cat.id && !m.admin_status));
    assert!(matches!(add_invited_user_db(&mut db, 99, &form, now()), Err(DbError::NotFound)));
}

#[test]
fn privilege_removal_and_leaving() {
    let mut db = acme();
    invite_user_db(&mut db, 1, &path("Acme"), &InviteToSpace { email: vec!["bob@x.io".to_string()] }, now(), &"s3cret".to_string()).unwrap();
    let denied = change_user_priviledge_status_db(&mut db, 2, &path("Acme"), &PriviledgeStruct { admin: true, user: 2 }).unwrap();
    assert!(!denied.success);
    let ok = change_user_priviledge_status_db(&mut db, 1, &path("Acme"), &PriviledgeStruct { admin: true, user: 2 }).unwrap();
    assert!(ok.success);
    assert!(get_user_space_status_db(&db, 2, &path("Acme")).unwrap().message);
    let kicked = remove_user_from_space_db(&mut db, 2, &path("Acme"), &UserIdStruct { user: 1 }).unwrap();
    assert_eq!(kicked.message, "user kicked out successfully");
    assert!(matches!(get_space_db(&db, 1, &path("Acme")), Err(DbError::NotFound)));
    let left = leave_space_db(&mut db, 2, &path("Acme")).unwrap();
    assert_eq!(left.message, "Removed from Space successfully");
    assert!(db.spaces_users.is_empty());
}

#[test]
fn spaces_of_a_user_and_space_update() {
    let mut db = acme();
    let mine = get_user_space_db(&db, 1).unwrap();
    assert_eq!(mine.message.len(), 1);
    assert_eq!(mine.message[0].1.spaces_name, "Acme");
    let r = update_space_db(&mut db, 1, &path("Acme"), &CreateSpace { spaces_name: "Apex".to_string(), spaces_desc: "new".to_string() }).unwrap();
    assert_eq!(r.message, "Space updated successfully");
    assert_eq!(db.spaces[0].spaces_name, "Apex");
    let r = update_space_db(&mut db, 1, &path("Acme"), &CreateSpace { spaces_name: "X".to_string(), spaces_desc: "x".to_string() }).unwrap();
    assert_eq!(r.message, "space not found");
}

#[test]
fn logo_upload_needs_an_admin() {
    let mut db = acme();
    assert!(matches!(space_logo_access(&db, 1, &path("Nowhere")), Ok(LogoAccess::Denied(ref r)) if r.message == "Space not found"));
    assert!(matches!(space_logo_access(&db, 2, &path("Acme")), Err(DbError::Failure)));
    assert!(matches!(space_logo_access(&db, 9, &path("Acme")), Err(DbError::Failure)));
    invite_user_db(&mut db, 1, &path("Acme"), &InviteToSpace { email: vec!["bob@x.io".to_string()] }, now(), &"s3cret".to_string()).unwrap();
    assert!(matches!(space_logo_access(&db, 2, &path("Acme")), Ok(LogoAccess::Denied(ref r)) if r.message == "Only admin is permitted to update this space logo"));
    let sid = match space_logo_access(&db, 1, &path("Acme")) {
        Ok(LogoAccess::Granted(s)) => s.id,
        _ => panic!("admin refused"),
    };
    let r = finish_logo_upload(&mut db, sid, Some("https://l/logo.png".to_string()));
    assert!(r.success);
    assert_eq!(db.spaces[0].spaces_img, "https://l/logo.png");
}

#[test]
fn channels_are_created_renamed_and_deleted() {
    let mut db = acme();
    let r = create_new_channel_db(&mut db, 1, &path("Acme"), &ChannelField { channel_name: "Ops".to_string() }).unwrap();
    assert!(r.success);
    let clash = create_new_channel_db(&mut db, 1, &path("Acme"), &ChannelField { channel_name: "OPS".to_string() }).unwrap();
    assert_eq!(clash.message.unwrap(), "Channel name already taken");
    let listed = get_channels_in_space_db(&db, &path("Acme")).unwrap();
    assert_eq!(listed.message.len(), 2);
    let general = edit_channel_name_db(&mut db, 1, &channel("Acme", "general"), &ChannelField { channel_name: "Main".to_string() }).unwrap();
    assert_eq!(general.message, "General channel can't be modified");
    let renamed = edit_channel_name_db(&mut db, 1, &channel("Acme", "ops"), &ChannelField { channel_name: "Launch".to_string() }).unwrap();
    assert_eq!(renamed.message, "Channel name updated successfully");
    assert!(get_channel_details_db(&db, 1, &channel("Acme", "Launch")).is_ok());
    let deleted = delete_channel_db(&mut db, 1, &channel("Acme", "Launch")).unwrap();
    assert!(deleted.success);
    assert_eq!(db.spaces_channel.len(), 1);
    assert!(db.channel_users.iter().all(|c| c.space_channel_id == db.spaces_channel[0].id));
}

#[test]
fn channel_membership_management() {
    let mut db = acme();
    invite_user_db(&mut db, 1, &path("Acme"), &InviteToSpace { email: vec!["bob@x.io".to_string()] }, now(), &"s3cret".to_string()).unwrap();
    create_new_channel_db(&mut db, 1, &path("Acme"), &ChannelField { channel_name: "Ops".to_string() }).unwrap();
    let ops = channel("Acme", "Ops");
    let r = add_user_to_channel_db(&mut db, 1, &ops, &AddUserToFoldr { id: vec![2, 2, 1] }).unwrap();
    assert!(r.success);
    let ops_id = db.spaces_channel[1].id;
    assert_eq!(db.channel_users.iter().filter(|c| c.space_channel_id == ops_id).count(), 2);
    assert!(!get_channel_admin_status_db(&db, 2, &ops).unwrap().message);
    let refused = change_user_admin_status_db(&mut db, 2, &ops, &DeleteMailList { id: 1 }).unwrap();
    assert_eq!(refused.message, "only admin allowed to updated admin status");
    // The new status is the negation of the requesting admin's own status.
    let changed = change_user_admin_status_db(&mut db, 1, &ops, &DeleteMailList { id: 2 }).unwrap();
    assert!(changed.success);
    assert!(!get_channel_admin_status_db(&db, 2, &ops).unwrap().message);
    assert!(get_channel_admin_status_db(&db, 1, &ops).unwrap().message);
    let removed = remove_user_from_channel_db(&mut db, 1, &ops, &DeleteMailList { id: 2 }).unwrap();
    assert!(removed.success);
    assert!(get_channel_admin_status_db(&db, 2, &ops).is_err());
    let left = leave_channel_db(&mut db, 1, &ops).unwrap();
    assert!(left.success);
    assert_eq!(db.channel_users.iter().filter(|c| c.space_channel_id == ops_id).count(), 0);
}

#[test]
fn inviting_twice_changes_nothing_more_than_once() {
    let mut db = acme();
    let item = InviteToSpace { email: vec!["bob@x.io".to_string(), "new@x.io".to_string()] };
    invite_user_db(&mut db, 1, &path("Acme"), &item, now(), &"s3cret".to_string()).unwrap();
    let (members, in_channels) = (db.spaces_users.clone(), db.channel_users.clone());
    let (r, mails) = invite_user_db(&mut db, 1, &path("Acme"), &item, now(), &"s3cret".to_string()).unwrap();
    assert!(r.success);
    assert_eq!(db.spaces_users, members);
    assert_eq!(db.channel_users, in_channels);
    // Only the unknown address is written to again.
    assert_eq!(mails.len(), 1);
    assert_eq!(mails[0].as_ref().unwrap().to, "new@x.io");
}

#[test]
fn adding_to_a_channel_twice_is_once() {
    let mut db = acme();
    invite_user_db(&mut db, 1, &path("Acme"), &InviteToSpace { email: vec!["bob@x.io".to_string()] }, now(), &"s3cret".to_string()).unwrap();
    create_new_channel_db(&mut db, 1, &path("Acme"), &ChannelField { channel_name: "Ops".to_string() }).unwrap();
    let ops = channel("Acme", "Ops");
    add_user_to_channel_db(&mut db, 1, &ops, &AddUserToFoldr { id: vec![2] }).unwrap();
    let once = db.channel_users.clone();
    let r = add_user_to_channel_db(&mut db, 1, &ops, &AddUserToFoldr { id: vec![2] }).unwrap();
    assert!(r.success);
    assert_eq!(db.channel_users, once);
}
