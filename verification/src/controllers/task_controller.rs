//! Tasks of a project: creation, editing, deletion, status and listing.
use crate::controllers::event_controller::{read_date, requested_date};
use crate::controllers::project_controller::{find_project_by_name, project_by_name, tasks_of_project, assigned_to_any, has_task_id};
use crate::insert::view_push_tasks;
use crate::model::{Row, Task, User, UserTask};
use crate::queries::{load_member_ctx, member_ctx};
use crate::store::{rview, DbError, DbView, Store};
use crate::table::{delete_rows, delete_where, join_first, join_rows, select_rows, update_rows, update_where};
use crate::types::{
    opt_reply, reply, AddTask, AddUserToFolderPath, ChannelPathInfo, OptionalResponse, Response,
    UpdateTask, UpdateTaskStatus,
};
use vstd::prelude::*;
use vstd::string::StringExecFns;

verus! {

/// The task with the given id.
pub open spec fn task_id_is(id: i32) -> spec_fn(Task) -> bool {
    |t: Task| t.id == id
}

/// Assignments to the task with the given id.
pub open spec fn assigned_to(task_id: i32) -> spec_fn(UserTask) -> bool {
    |a: UserTask| a.task_id == task_id
}

/// A task with a new name and description.
pub open spec fn with_task_text(name: String, desc: String) -> spec_fn(Task) -> Task {
    |t: Task| Task { task_name: name, task_description: desc, ..t }
}

/// A task with a new status.
pub open spec fn with_task_status(status: String) -> spec_fn(Task) -> Task {
    |t: Task| Task { task_status: status, ..t }
}

/// An assignment and the assigned user.
pub open spec fn assignment_user_key() -> spec_fn(UserTask, User) -> bool {
    |a: UserTask, u: User| u.id == a.user_id
}

/// An admin of the named space adds a task, due at midnight of the given
/// day and with status "undone", to the project with the given id; a day
/// that does not exist fails the request.
pub fn create_task_db(db: &mut Store, uid: i32, space_name: &AddUserToFolderPath, item: &AddTask) -> (r:
    Result<OptionalResponse<String, Task>, DbError>)
    requires
        old(db)@.ids.tasks < i32::MAX,
    ensures
        match member_ctx(old(db)@, uid, space_name.info@) {
            Err(e) => rview(r) == Err::<(bool, Option<Seq<char>>, Option<Task>), DbError>(e)
                && final(db)@ == old(db)@,
            Ok((u, s, m)) => if !m.admin_status {
                final(db)@ == old(db)@ && rview(r) == Ok::<
                    (bool, Option<Seq<char>>, Option<Task>),
                    DbError,
                >((false, Some("Only admin allowed to add task"@), None))
            } else {
                match requested_date(item.year, item.due_date@) {
                    None => rview(r) == Err::<(bool, Option<Seq<char>>, Option<Task>), DbError>(
                        DbError::Failure,
                    ) && final(db)@ == old(db)@,
                    Some(d) => {
                        let t = final(db)@.tasks.last();
                        &&& final(db)@.tasks.len() > 0
                        &&& t == (Task {
                            id: old(db)@.ids.tasks,
                            task_name: item.task_name,
                            task_description: item.task_description,
                            project_id: space_name.id,
                            task_status: t.task_status,
                            due_date: d,
                        })
                        &&& t.task_status@ == "undone"@
                        &&& final(db)@ == view_push_tasks(old(db)@, t)
                        &&& rview(r) == Ok::<(bool, Option<Seq<char>>, Option<Task>), DbError>(
                            (true, Some("Task created successfully"@), Some(t)),
                        )
                    },
                }
            },
        },
{
    let (_u, _s, m) = match load_member_ctx(db, uid, space_name.info.as_str()) {
        Ok(x) => x,
        Err(e) => return Err(e),
    };
    if !m.admin_status {
        return Ok(opt_reply(false, "Only admin allowed to add task", None));
    }
    let d = match read_date(item.year, &item.due_date) {
        Some(d) => d,
        None => return Err(DbError::Failure),
    };
    let t = db.insert_tasks(
        item.task_name.clone(),
        item.task_description.clone(),
        space_name.id,
        String::from_str("undone"),
        d,
    );
    Ok(opt_reply(true, "Task created successfully", Some(t)))
}

/// An admin of the named space renames and re-describes the task with the
/// given id.
pub fn update_task_db(db: &mut Store, uid: i32, space_name: &AddUserToFolderPath, item: &UpdateTask) -> (r:
    Result<Response<String>, DbError>)
    ensures
        match member_ctx(old(db)@, uid, space_name.info@) {
            Err(e) => r == Err::<Response<String>, DbError>(e) && final(db)@ == old(db)@,
            Ok((u, s, m)) => if !m.admin_status {
                final(db)@ == old(db)@ && (r matches Ok(resp) && resp@ == (
                    false,
                    "Only admin allowed to update task"@,
                ))
            } else {
                final(db)@ == (DbView { tasks: update_where(old(db)@.tasks, task_id_is(space_name.id), with_task_text(item.task_name, item.task_description)), ..old(db)@ })
                    && (r matches Ok(resp) && resp@ == (true, "Task updated successfully"@))
            },
        },
{
    let (_u, _s, m) = match load_member_ctx(db, uid, space_name.info.as_str()) {
        Ok(x) => x,
        Err(e) => return Err(e),
    };
    if !m.admin_status {
        return Ok(reply(false, "Only admin allowed to update task"));
    }
    let id = space_name.id;
    let name = &item.task_name;
    let desc = &item.task_description;
    let pred = |t: &Task| -> (b: bool) ensures b == task_id_is(id)(*t), { t.id == id };
    let f = |t: &Task| -> (r: Task) ensures r == with_task_text(*name, *desc)(*t), { Task { task_name: name.clone(), task_description: desc.clone(), ..t.duplicate() } };
    update_rows(&mut db.tasks, pred, f, Ghost(task_id_is(id)), Ghost(with_task_text(*name, *desc)));
    Ok(reply(true, "Task updated successfully"))
}

/// The view after deleting a task and its assignments.
pub open spec fn view_delete_task(v: DbView, task_id: i32) -> DbView {
    DbView {
        user_tasks: delete_where(v.user_tasks, assigned_to(task_id)),
        tasks: delete_where(v.tasks, task_id_is(task_id)),
        ..v
    }
}

/// An admin of the named space deletes the task with the given id and its
/// assignments.
pub fn delete_task_db(db: &mut Store, uid: i32, space_name: &AddUserToFolderPath) -> (r: Result<
    Response<String>,
    DbError,
>)
    ensures
        match member_ctx(old(db)@, uid, space_name.info@) {
            Err(e) => r == Err::<Response<String>, DbError>(e) && final(db)@ == old(db)@,
            Ok((u, s, m)) => if !m.admin_status {
                final(db)@ == old(db)@ && (r matches Ok(resp) && resp@ == (
                    false,
                    "Only admin allowed to delete task"@,
                ))
            } else {
                final(db)@ == view_delete_task(old(db)@, space_name.id) && (r matches Ok(resp)
                    && resp@ == (true, "task deleted successfully"@))
            },
        },
{
    let (_u, _s, m) = match load_member_ctx(db, uid, space_name.info.as_str()) {
        Ok(x) => x,
        Err(e) => return Err(e),
    };
    if !m.admin_status {
        return Ok(reply(false, "Only admin allowed to delete task"));
    }
    let id = space_name.id;
    let pred = |a: &UserTask| -> (b: bool) ensures b == assigned_to(id)(*a), { a.task_id == id };
    delete_rows(&mut db.user_tasks, pred, Ghost(assigned_to(id)));
    let pred2 = |t: &Task| -> (b: bool) ensures b == task_id_is(id)(*t), { t.id == id };
    delete_rows(&mut db.tasks, pred2, Ghost(task_id_is(id)));
    Ok(reply(true, "task deleted successfully"))
}

/// A member of the named space sets the status of the task with the given id.
pub fn update_task_status_db(db: &mut Store, uid: i32, space_name: &AddUserToFolderPath, item: &UpdateTaskStatus) -> (r:
    Result<Response<String>, DbError>)
    ensures
        match member_ctx(old(db)@, uid, space_name.info@) {
            Err(e) => r == Err::<Response<String>, DbError>(e) && final(db)@ == old(db)@,
            Ok(_) => final(db)@ == (DbView { tasks: update_where(old(db)@.tasks, task_id_is(space_name.id), with_task_status(item.task_status)), ..old(db)@ })
                && (r matches Ok(resp) && resp@ == (true, "task status updated"@)),
        },
{
    match load_member_ctx(db, uid, space_name.info.as_str()) {
        Ok(_) => {},
        Err(e) => return Err(e),
    }
    let id = space_name.id;
    let st = &item.task_status;
    let pred = |t: &Task| -> (b: bool) ensures b == task_id_is(id)(*t), { t.id == id };
    let f = |t: &Task| -> (r: Task) ensures r == with_task_status(*st)(*t), { Task { task_status: st.clone(), ..t.duplicate() } };
    update_rows(&mut db.tasks, pred, f, Ghost(task_id_is(id)), Ghost(with_task_status(*st)));
    Ok(reply(true, "task status updated"))
}

/// The tasks of a project of the named space found by name, and the
/// assignments of those tasks with the assigned users.
pub fn get_task_in_project_db(db: &Store, uid: i32, space_name: &ChannelPathInfo) -> (r: Result<
    Response<(Vec<(UserTask, User)>, Vec<Task>)>,
    DbError,
>)
    ensures
        match member_ctx(db@, uid, space_name.info@) {
            Err(e) => r == Err::<Response<(Vec<(UserTask, User)>, Vec<Task>)>, DbError>(e),
            Ok((u, s, m)) => match project_by_name(db@, s.id, space_name.channel@) {
                Err(e) => r == Err::<Response<(Vec<(UserTask, User)>, Vec<Task>)>, DbError>(e),
                Ok(p) => {
                    let ts = db@.tasks.filter(tasks_of_project(p.id));
                    r matches Ok(resp) && resp@ == (
                        true,
                        (
                            join_first(
                                db@.user_tasks.filter(assigned_to_any(ts)),
                                db@.users,
                                assignment_user_key(),
                            ),
                            ts,
                        ),
                    )
                },
            },
        },
{
    let (_u, s, _m) = match load_member_ctx(db, uid, space_name.info.as_str()) {
        Ok(x) => x,
        Err(e) => return Err(e),
    };
    let p = match find_project_by_name(db, s.id, &space_name.channel) {
        Ok(p) => p,
        Err(e) => return Err(e),
    };
    let pid = p.id;
    let pred = |t: &Task| -> (b: bool) ensures b == tasks_of_project(pid)(*t), { t.project_id == pid };
    let ts = select_rows(&db.tasks, pred, Ghost(tasks_of_project(pid)));
    let t2 = &ts;
    let pred2 = |a: &UserTask| -> (b: bool) ensures b == assigned_to_any(t2@)(*a), { has_task_id(t2, a.task_id) };
    let assigned = select_rows(&db.user_tasks, pred2, Ghost(assigned_to_any(ts@)));
    let key = |a: &UserTask, u: &User| -> (b: bool) ensures b == assignment_user_key()(*a, *u), { u.id == a.user_id };
    let joined = join_rows(&assigned, &db.users, key, Ghost(assignment_user_key()));
    Ok(Response::new(true, (joined, ts)))
}

} // verus!
