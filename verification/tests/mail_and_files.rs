use spacies::controllers::asset_content_controller::{
    delete_upload_db, finish_uploads, get_files_db, store_upload, upload_target, UploadAnswer,
    UploadOutcome,
};
use spacies::controllers::mail_user_controller::{
    add_user_folder_db, remove_user_folder_db, send_email_to_general_db, send_mail_to_folder_db,
};
use spacies::controllers::space_controller::{add_space_db, invite_user_db};
use spacies::controllers::user_controller::{add_user_db, verify_user_db};
use spacies::datetime::DateTime;
use spacies::helpers::encrypt::encrypt;
use spacies::store::{DbError, Store};
use spacies::types::{
    AddFileContent, AddUserToFolderPath, AddUserToFoldr, CreateSpace, CreateUser, DeleteMailList,
    InviteToSpace, MailChannelPathInfo, PathInfo, SendMail,
};

fn now() -> DateTime {
    DateTime { year: 2023, month: 3, day: 14, hour: 9, minute: 30, second: 0, nanosecond: 0 }
}

fn register(db: &mut Store, name: &str, email: &str) -> i32 {
    let form = CreateUser { username: name.to_string(), email: email.to_string(), user_password: "secret1".to_string() };
    match add_user_db(db, &form, now(), &"s3cret".to_string()) {
        Ok((r, _)) if r.success => db.users.last().unwrap().id,
        _ => panic!("registration failed"),
    }
}

fn acme() -> Store {
    let mut db = Store::new();
    let admin = register(&mut db, "ann", "ann@x.io");
    let other = register(&mut db, "bob", "bob@x.io");
    verify_user_db(&mut db, admin);
    verify_user_db(&mut db, other);
    add_space_db(&mut db, admin, &CreateSpace { spaces_name: "Acme".to_string(), spaces_desc: "d".to_string() }, now()).unwrap();
    invite_user_db(&mut db, admin, &PathInfo { info: "Acme".to_string() }, &InviteToSpace { email: vec!["bob@x.io".to_string()] }, now(), &"s3cret".to_string()).unwrap();
    db
}

fn mail() -> SendMail {
    SendMail { title: "Hi".to_string(), body: "News".to_string() }
}

#[test]
fn general_mail_needs_credentials_and_reaches_every_member() {
    let mut db = acme();
    let key = "k3y".to_string();
    let (r, snd, mails) = send_email_to_general_db(&db, &PathInfo { info: "Acme".to_string() }, 2, &mail(), &key).unwrap();
    assert_eq!(r.message, "Please provide email credentials before you use this service");
    assert!(snd.is_none());
    assert!(mails.is_empty());
    let sealed = encrypt(&"pw".to_string(), &key);
    let sid = db.spaces[0].id;
    db.insert_spaces_email("team@x.io".to_string(), sealed, "smtp.x.io".to_string(), sid);
    let (r, snd, mails) = send_email_to_general_db(&db, &PathInfo { info: "Acme".to_string() }, 2, &mail(), &key).unwrap();
    assert_eq!(r.message, "Email sent successfully to all members");
    let snd = snd.unwrap();
    assert_eq!((snd.address.as_str(), snd.password.as_str(), snd.provider.as_str()), ("team@x.io", "pw", "smtp.x.io"));
    assert_eq!(mails.len(), 2);
    assert_eq!(mails[0].email, "ann@x.io");
    assert_eq!(mails[1].username, "bob");
    assert_eq!(mails[0].folder_name, "General");
    let wrong = send_email_to_general_db(&db, &PathInfo { info: "Acme".to_string() }, 2, &mail(), &"other".to_string());
    assert!(matches!(wrong, Err(DbError::Failure)));
}

#[test]
fn folders_gain_and_lose_members() {
    let mut db = acme();
    let sid = db.spaces[0].id;
    let f = db.insert_maillists("Team".to_string(), sid);
    let path = AddUserToFolderPath { info: "Acme".to_string(), id: f.id };
    let denied = add_user_folder_db(&mut db, 2, &path, &AddUserToFoldr { id: vec![1] }).unwrap();
    assert_eq!(denied.message, "only admin allowed to add users to folder");
    let ok = add_user_folder_db(&mut db, 1, &path, &AddUserToFoldr { id: vec![2, 2] }).unwrap();
    assert_eq!(ok.message, "Users added successfully");
    assert_eq!(db.usermails.len(), 1);
    let key = "k3y".to_string();
    db.insert_spaces_email("team@x.io".to_string(), encrypt(&"pw".to_string(), &key), "smtp".to_string(), sid);
    let (r, _, mails) = send_mail_to_folder_db(&db, &path, 1, &mail(), &key).unwrap();
    assert!(r.success);
    assert_eq!(mails.len(), 1);
    assert_eq!(mails[0].email, "bob@x.io");
    assert_eq!(mails[0].folder_name, "Team");
    let rm = remove_user_folder_db(&mut db, 1, &path, &DeleteMailList { id: 2 }).unwrap();
    assert_eq!(rm.message, "user removed successfully");
    assert!(db.usermails.is_empty());
    let missing = AddUserToFolderPath { info: "Acme".to_string(), id: 77 };
    assert!(matches!(send_mail_to_folder_db(&db, &missing, 1, &mail(), &key), Err(DbError::NotFound)));
}

#[test]
fn files_of_a_folder_are_uploaded_listed_and_deleted() {
    let mut db = acme();
    let sid = db.spaces[0].id;
    let folder = db.insert_assets("Docs".to_string(), sid, now());
    let target = AddFileContent { info: "Acme".to_string(), id: folder.id, file_type: "pdf".to_string() };
    let asset = upload_target(&db, 2, &target).unwrap();
    assert_eq!(asset.id, folder.id);
    assert!(matches!(upload_target(&db, 9, &target), Err(DbError::Failure)));
    let elsewhere = AddFileContent { info: "Acme".to_string(), id: 99, file_type: "pdf".to_string() };
    assert!(matches!(upload_target(&db, 1, &elsewhere), Err(DbError::Failure)));
    assert!(store_upload(&mut db, &asset, &target, None, now()).is_none());
    let c = store_upload(&mut db, &asset, &target, Some("https://b/1-a.pdf".to_string()), now()).unwrap();
    assert_eq!((c.file_content.as_str(), c.file_type.as_str(), c.asset_id), ("https://b/1-a.pdf", "pdf", folder.id));
    let listed = get_files_db(&db, 1, &MailChannelPathInfo { info: "Acme".to_string(), name: "docs".to_string() }).unwrap();
    assert_eq!(listed.message.0.id, folder.id);
    assert_eq!(listed.message.1.len(), 1);
    assert!(matches!(get_files_db(&db, 1, &MailChannelPathInfo { info: "Acme".to_string(), name: "x".to_string() }), Err(DbError::NotFound)));
    let del = delete_upload_db(&mut db, 2, &AddUserToFolderPath { info: "Acme".to_string(), id: c.id }).unwrap();
    assert_eq!(del.message, "File deleted successfully");
    assert!(db.asset_contents.is_empty());
}

#[test]
fn an_upload_stops_at_the_first_file_too_large() {
    let mut db = acme();
    let sid = db.spaces[0].id;
    let folder = db.insert_assets("Docs".to_string(), sid, now());
    let target = AddFileContent { info: "Acme".to_string(), id: folder.id, file_type: "pdf".to_string() };
    let asset = upload_target(&db, 1, &target).unwrap();
    let outcomes = vec![
        UploadOutcome::Stored("https://b/1-a.pdf".to_string()),
        UploadOutcome::Failed,
        UploadOutcome::Stored("https://b/2-b.pdf".to_string()),
    ];
    match finish_uploads(&mut db, &asset, &target, &outcomes, now()) {
        UploadAnswer::Done(r) => {
            assert!(r.success);
            let links: Vec<&str> = r.message.iter().map(|c| c.file_content.as_str()).collect();
            assert_eq!(links, vec!["https://b/1-a.pdf", "https://b/2-b.pdf"]);
        }
        UploadAnswer::Refused(_) => panic!("refused"),
    }
    assert_eq!(db.asset_contents.len(), 2);
    let outcomes = vec![
        UploadOutcome::Stored("https://b/3-c.pdf".to_string()),
        UploadOutcome::TooLarge,
        UploadOutcome::Stored("https://b/4-d.pdf".to_string()),
    ];
    match finish_uploads(&mut db, &asset, &target, &outcomes, now()) {
        UploadAnswer::Refused(r) => {
            assert_eq!((r.success, r.message.as_str()), (false, "file should not be larger than 10 MB"));
        }
        UploadAnswer::Done(_) => panic!("accepted"),
    }
    // The file before the large one stays; the one after it is not recorded.
    assert_eq!(db.asset_contents.len(), 3);
    assert_eq!(db.asset_contents[2].file_content, "https://b/3-c.pdf");
}
