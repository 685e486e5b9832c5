use spacies::controllers::channel_controller::{create_new_channel_db, edit_channel_name_db};
use spacies::controllers::event_controller::create_event_db;
use spacies::controllers::space_controller::{add_space_db, get_space_db};
use spacies::controllers::user_controller::{add_user_db, login_db, verify_user_db};
use spacies::auth::decode_token;
use spacies::datetime::DateTime;
use spacies::helpers::mail::reminder_mails;
use spacies::helpers::schedule::{reminders_ready, run_job};
use spacies::helpers::socket::decimal_string;
use spacies::auth::parse_user_id;
use spacies::store::Store;
use spacies::types::{AddEvent, ChannelField, ChannelPathInfo, CreateSpace, CreateUser, LoginUser, PathInfo};

fn at(day: u32, hour: u32) -> DateTime {
    DateTime { year: 2023, month: 5, day, hour, minute: 0, second: 0, nanosecond: 0 }
}

#[test]
fn registered_user_logs_in() {
    let mut db = Store::new();
    let form = CreateUser { username: "ann".to_string(), email: "Ann@X.io".to_string(), user_password: "secret1".to_string() };
    let (r, _) = add_user_db(&mut db, &form, at(1, 0), &"s3cret".to_string()).unwrap();
    assert!(r.success);
    let id = db.users.last().unwrap().id;
    let r = login_db(&db, &LoginUser { email: "Ann@X.io".to_string(), user_password: "secret1".to_string() }, DateTime { year: 2099, month: 1, day: 1, hour: 0, minute: 0, second: 0, nanosecond: 0 }, &"s3cret".to_string()).unwrap();
    assert!(r.success);
    assert_eq!(decode_token(&r.message, &"s3cret".to_string()), Some(id.to_string()));
}

#[test]
fn created_space_is_found_by_name() {
    let mut db = Store::new();
    let form = CreateUser { username: "ann".to_string(), email: "ann@x.io".to_string(), user_password: "secret1".to_string() };
    add_user_db(&mut db, &form, at(1, 0), &"s3cret".to_string()).unwrap();
    verify_user_db(&mut db, 1);
    let r = add_space_db(&mut db, 1, &CreateSpace { spaces_name: "Red_Team".to_string(), spaces_desc: "d".to_string() }, at(1, 0)).unwrap();
    let s = r.value.unwrap();
    assert_eq!(get_space_db(&db, 1, &PathInfo { info: "Red_Team".to_string() }).unwrap().message.id, s.id);
}

#[test]
fn channel_names_stay_distinct() {
    let mut db = Store::new();
    let form = CreateUser { username: "ann".to_string(), email: "ann@x.io".to_string(), user_password: "secret1".to_string() };
    add_user_db(&mut db, &form, at(1, 0), &"s3cret".to_string()).unwrap();
    verify_user_db(&mut db, 1);
    add_space_db(&mut db, 1, &CreateSpace { spaces_name: "Acme".to_string(), spaces_desc: "d".to_string() }, at(1, 0)).unwrap();
    let acme = PathInfo { info: "Acme".to_string() };
    for name in ["Ops", "ops", "OPS", "Dev", "general"] {
        create_new_channel_db(&mut db, 1, &acme, &ChannelField { channel_name: name.to_string() }).unwrap();
    }
    edit_channel_name_db(&mut db, 1, &ChannelPathInfo { info: "Acme".to_string(), channel: "Dev".to_string() }, &ChannelField { channel_name: "OPS".to_string() }).unwrap();
    let names: Vec<String> = db.spaces_channel.iter().map(|c| c.channel_name.to_lowercase()).collect();
    assert_eq!(names, vec!["general", "ops", "dev"]);
}

#[test]
fn reminders_go_out_once() {
    let mut db = Store::new();
    let form = CreateUser { username: "ann".to_string(), email: "ann@x.io".to_string(), user_password: "secret1".to_string() };
    add_user_db(&mut db, &form, at(1, 0), &"s3cret".to_string()).unwrap();
    verify_user_db(&mut db, 1);
    add_space_db(&mut db, 1, &CreateSpace { spaces_name: "Acme".to_string(), spaces_desc: "d".to_string() }, at(1, 0)).unwrap();
    let acme = PathInfo { info: "Acme".to_string() };
    create_event_db(&mut db, 1, &acme, &AddEvent { event_name: "Today".to_string(), event_description: "d".to_string(), year: 2023, event_date: vec![5, 20] }).unwrap();
    create_event_db(&mut db, 1, &acme, &AddEvent { event_name: "Later".to_string(), event_description: "d".to_string(), year: 2023, event_date: vec![5, 21] }).unwrap();
    let today = at(20, 8);
    assert!(reminders_ready(&db, today));
    let first = run_job(&mut db, today);
    assert_eq!(first.len(), 1);
    assert_eq!(first[0].event.event_name, "Today");
    assert_eq!(first[0].space.spaces_name, "Acme");
    assert_eq!(first[0].members.len(), 1);
    let mails = reminder_mails(&first[0]);
    assert_eq!(mails.len(), 1);
    assert_eq!((mails[0].to.as_str(), mails[0].name.as_str(), mails[0].subject.as_str()), ("ann@x.io", "ann", "Event reminder"));
    assert!(mails[0].body.contains("Today") && mails[0].body.contains("Acme"));
    assert!(db.events[0].reminded);
    assert!(!db.events[1].reminded);
    let second = run_job(&mut db, today);
    assert!(second.is_empty());
}

#[test]
fn token_subject_reads_back() {
    for id in [0, 1, 42, -7, i32::MAX, i32::MIN] {
        assert_eq!(parse_user_id(decimal_string(id as i64).as_str()), Some(id));
    }
}

#[test]
fn issued_token_names_its_user() {
    let issued = DateTime { year: 2099, month: 3, day: 1, hour: 12, minute: 0, second: 0, nanosecond: 0 };
    let secret = "s3cret".to_string();
    for id in [1, 42, i32::MAX] {
        let t = spacies::auth::create_token(&decimal_string(id as i64), issued, 30, &secret).unwrap();
        let company = decode_token(&t, &secret).unwrap();
        assert_eq!(parse_user_id(company.as_str()), Some(id));
    }
}
