use spacies::controllers::event_controller::{
    create_event_db, delete_event_db, edit_event_db, get_event_details_db, get_events_db,
    make_contains_pattern, read_date, search_event_db,
};
use spacies::controllers::project_controller::{
    create_project_db, delete_project_db, get_all_projects_db, get_project_details_db,
    search_project_db, update_project_db,
};
use spacies::controllers::space_controller::{add_space_db, invite_user_db};
use spacies::controllers::task_controller::{
    create_task_db, delete_task_db, get_task_in_project_db, update_task_db, update_task_status_db,
};
use spacies::controllers::user_controller::{add_user_db, verify_user_db};
use spacies::controllers::user_task_controller::{add_user_to_task_db, remove_user_from_task_db};
use spacies::datetime::DateTime;
use spacies::store::{DbError, Store};
use spacies::types::{
    AddEvent, AddProject, AddTask, AddUserToFolderPath, AddUserToFoldr, ChannelPathInfo,
    CreateSpace, CreateUser, DeleteMailList, EditEvent, InviteToSpace, MailChannelPathInfo,
    PaginateQuery, PathInfo, UpdateTask, UpdateTaskStatus,
};

fn now() -> DateTime {
    DateTime { year: 2023, month: 3, day: 14, hour: 9, minute: 30, second: 0, nanosecond: 0 }
}

fn register(db: &mut Store, name: &str, email: &str) -> i32 {
    let form = CreateUser { username: name.to_string(), email: email.to_string(), user_password: "secret1".to_string() };
    match add_user_db(db, &form, now(), &"s3cret".to_string()) {
        Ok((r, _)) if r.success => db.users.last().unwrap().id,
        _ => panic!("registration failed"),
    }
}

fn acme() -> Store {
    let mut db = Store::new();
    let admin = register(&mut db, "ann", "ann@x.io");
    let other = register(&mut db, "bob", "bob@x.io");
    verify_user_db(&mut db, admin);
    verify_user_db(&mut db, other);
    add_space_db(&mut db, admin, &CreateSpace { spaces_name: "Acme".to_string(), spaces_desc: "d".to_string() }, now()).unwrap();
    invite_user_db(&mut db, admin, &PathInfo { info: "Acme".to_string() }, &InviteToSpace { email: vec!["bob@x.io".to_string()] }, now(), &"s3cret".to_string()).unwrap();
    db
}

fn acme_path() -> PathInfo {
    PathInfo { info: "Acme".to_string() }
}

fn at(id: i32) -> AddUserToFolderPath {
    AddUserToFolderPath { info: "Acme".to_string(), id }
}

fn event(name: &str, year: i32, month: u32, day: u32) -> AddEvent {
    AddEvent { event_name: name.to_string(), event_description: "desc".to_string(), year, event_date: vec![month, day] }
}

#[test]
fn event_dates_are_read_as_midnight_of_real_days() {
    let d = read_date(2024, &vec![2, 29]).unwrap();
    assert_eq!((d.year, d.month, d.day, d.hour, d.minute, d.second, d.nanosecond), (2024, 2, 29, 0, 0, 0, 0));
    assert!(read_date(2023, &vec![2, 29]).is_none());
    assert!(read_date(2023, &vec![13, 1]).is_none());
    assert!(read_date(2023, &vec![4]).is_none());
}

#[test]
fn events_are_created_once_per_name_and_listed_latest_first() {
    let mut db = acme();
    let r = create_event_db(&mut db, 2, &acme_path(), &event("Launch", 2023, 5, 1)).unwrap();
    assert!(r.success);
    assert!(!r.value.as_ref().unwrap().reminded);
    let dup = create_event_db(&mut db, 1, &acme_path(), &event("LAUNCH", 2023, 6, 1)).unwrap();
    assert_eq!(dup.message.unwrap(), "A similar event name already exist for this space");
    let bad = create_event_db(&mut db, 1, &acme_path(), &event("Party", 2023, 2, 30));
    assert!(matches!(bad, Err(DbError::Failure)));
    create_event_db(&mut db, 1, &acme_path(), &event("Review", 2023, 7, 1)).unwrap();
    let listed = get_events_db(&db, 1, &acme_path(), &PaginateQuery { page: 1, per_page: 10 }).unwrap();
    let (total, page) = listed.value.unwrap();
    assert_eq!(total, 2);
    assert_eq!(page[0].event_name, "Review");
    assert_eq!(page[1].event_name, "Launch");
    let found = search_event_db(&db, 1, &MailChannelPathInfo { info: "Acme".to_string(), name: "unc".to_string() }, &PaginateQuery { page: 1, per_page: 10 }).unwrap();
    let (_, hits) = found.value.unwrap();
    assert_eq!(hits.len(), 1);
    assert_eq!(hits[0].event_name, "Launch");
    let d = get_event_details_db(&db, 1, &ChannelPathInfo { info: "Acme".to_string(), channel: "review".to_string() }).unwrap();
    assert_eq!(d.value.unwrap().event_name, "Review");
}

#[test]
fn events_are_edited_and_deleted() {
    let mut db = acme();
    create_event_db(&mut db, 1, &acme_path(), &event("Launch", 2023, 5, 1)).unwrap();
    create_event_db(&mut db, 1, &acme_path(), &event("Review", 2023, 7, 1)).unwrap();
    let clash = edit_event_db(&mut db, 1, &at(1), &EditEvent { event_name: "review".to_string(), event_description: "x".to_string() }).unwrap();
    assert!(!clash.success);
    let ok = edit_event_db(&mut db, 1, &at(1), &EditEvent { event_name: "Go".to_string(), event_description: "x".to_string() }).unwrap();
    assert_eq!(ok.message.unwrap(), "Event updated successfully");
    assert_eq!(db.events[0].event_name, "Go");
    let del = delete_event_db(&mut db, 1, &at(1)).unwrap();
    assert_eq!(del.message.unwrap(), "Event deleted successfully");
    assert_eq!(db.events.len(), 1);
}

#[test]
fn contains_pattern_wraps_the_text() {
    assert_eq!(make_contains_pattern(&"abc".to_string()), "%abc%");
}

#[test]
fn projects_need_an_admin_and_distinct_names() {
    let mut db = acme();
    let denied = create_project_db(&mut db, 2, &acme_path(), &AddProject { project_name: "Moon".to_string() }, now()).unwrap();
    assert_eq!(denied.message.unwrap(), "Only admin authorized to create a project");
    let ok = create_project_db(&mut db, 1, &acme_path(), &AddProject { project_name: "Moon".to_string() }, now()).unwrap();
    assert!(ok.success);
    let dup = create_project_db(&mut db, 1, &acme_path(), &AddProject { project_name: "moon".to_string() }, now()).unwrap();
    assert_eq!(dup.message.unwrap(), "A similar Project name alrady exist");
    create_project_db(&mut db, 1, &acme_path(), &AddProject { project_name: "Mars".to_string() }, now()).unwrap();
    let all = get_all_projects_db(&db, 2, &acme_path(), &PaginateQuery { page: 1, per_page: 1 }).unwrap();
    assert_eq!(all.message.0, 2);
    assert_eq!(all.message.1.len(), 1);
    let hits = search_project_db(&db, 2, &MailChannelPathInfo { info: "Acme".to_string(), name: "oo".to_string() }, &PaginateQuery { page: 1, per_page: 5 }).unwrap();
    assert_eq!(hits.message.1.len(), 1);
    let renamed = update_project_db(&mut db, 1, &at(1), &AddProject { project_name: "Luna".to_string() }).unwrap();
    assert!(renamed.success);
    let details = get_project_details_db(&db, 1, &ChannelPathInfo { info: "Acme".to_string(), channel: "luna".to_string() }).unwrap();
    assert_eq!(details.message.id, 1);
}

#[test]
fn tasks_assignments_and_project_deletion() {
    let mut db = acme();
    create_project_db(&mut db, 1, &acme_path(), &AddProject { project_name: "Moon".to_string() }, now()).unwrap();
    let item = AddTask { task_name: "Fuel".to_string(), task_description: "fill".to_string(), year: 2023, due_date: vec![8, 31] };
    let t = create_task_db(&mut db, 1, &at(1), &item).unwrap();
    let task = t.value.unwrap();
    assert_eq!(task.task_status, "undone");
    assert_eq!(task.project_id, 1);
    let denied = create_task_db(&mut db, 2, &at(1), &item).unwrap();
    assert_eq!(denied.message.unwrap(), "Only admin allowed to add task");
    let a = add_user_to_task_db(&mut db, 1, &at(task.id), &AddUserToFoldr { id: vec![2, 1, 2] }).unwrap();
    assert_eq!(a.message, "users assigned to task");
    assert_eq!(db.user_tasks.len(), 2);
    let listed = get_task_in_project_db(&db, 2, &ChannelPathInfo { info: "Acme".to_string(), channel: "Moon".to_string() }).unwrap();
    assert_eq!(listed.message.0.len(), 2);
    assert_eq!(listed.message.1.len(), 1);
    let st = update_task_status_db(&mut db, 2, &at(task.id), &UpdateTaskStatus { task_status: "done".to_string() }).unwrap();
    assert_eq!(st.message, "task status updated");
    assert_eq!(db.tasks[0].task_status, "done");
    let up = update_task_db(&mut db, 1, &at(task.id), &UpdateTask { task_name: "Refuel".to_string(), task_description: "again".to_string() }).unwrap();
    assert!(up.success);
    let rm = remove_user_from_task_db(&mut db, 1, &at(task.id), &DeleteMailList { id: 2 }).unwrap();
    assert_eq!(rm.message, "user removed successfully");
    assert_eq!(db.user_tasks.len(), 1);
    let second = create_task_db(&mut db, 1, &at(1), &item).unwrap().value.unwrap();
    let gone = delete_task_db(&mut db, 1, &at(second.id)).unwrap();
    assert_eq!(gone.message, "task deleted successfully");
    let del = delete_project_db(&mut db, 1, &at(1)).unwrap();
    assert_eq!(del.message, "project deleted successfully");
    assert!(db.projects.is_empty());
    assert!(db.tasks.is_empty());
    assert!(db.user_tasks.is_empty());
}
