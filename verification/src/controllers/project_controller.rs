//! Projects of a space: creation, renaming, listing, details, search and
//! deletion with their tasks.
use crate::controllers::event_controller::{contains_pattern, make_contains_pattern};
use crate::datetime::DateTime;
use crate::insert::view_push_projects;
use crate::model::{Project, Row, Task, UserTask};
use crate::paginate::{page_of, paginate};
use crate::queries::{load_member_ctx, member_ctx};
use crate::store::{rview, DbError, DbView, Store};
use crate::table::{
    any_match, delete_rows, delete_where, find_index, find_row, first_match, select_rows,
    sort_desc, sort_rows_desc, update_rows, update_where,
};
use crate::text::{eq_ignore_case, ilike, ilike_holds, ilike_pattern_ok, ilike_pattern_valid, same_ignore_case};
use crate::types::{
    opt_reply, reply, AddProject, AddUserToFolderPath, ChannelPathInfo, MailChannelPathInfo,
    OptionalResponse, PaginateQuery, PathInfo, Response,
};
use vstd::prelude::*;

verus! {

/// Projects of a space.
pub open spec fn projects_of_space(space_id: i32) -> spec_fn(Project) -> bool {
    |p: Project| p.space_id == space_id
}

/// Projects of a space named `name`, ignoring case.
pub open spec fn project_named_like(space_id: i32, name: Seq<char>) -> spec_fn(Project) -> bool {
    |p: Project| p.space_id == space_id && eq_ignore_case(p.project_name@, name)
}

/// Projects of a space whose name matches the pattern.
pub open spec fn project_name_ilike(space_id: i32, pat: Seq<char>) -> spec_fn(Project) -> bool {
    |p: Project| p.space_id == space_id && ilike_pattern_ok(pat) && ilike(p.project_name@, pat)
}

/// The project with the given id.
pub open spec fn project_id_is(id: i32) -> spec_fn(Project) -> bool {
    |p: Project| p.id == id
}

/// A project with a new name.
pub open spec fn with_project_name(name: String) -> spec_fn(Project) -> Project {
    |p: Project| Project { project_name: name, ..p }
}

/// Order of projects by id.
pub open spec fn project_id_le() -> spec_fn(Project, Project) -> bool {
    |a: Project, b: Project| a.id <= b.id
}

/// The space has a project of this name, ignoring case.
pub open spec fn project_name_clash(v: DbView, space_id: i32, name: Seq<char>) -> bool {
    any_match(v.projects, project_named_like(space_id, name))
}

fn project_name_taken(db: &Store, space_id: i32, name: &String) -> (r: bool)
    ensures
        r == project_name_clash(db@, space_id, name@),
{
    let pred = |p: &Project| -> (b: bool) ensures b == project_named_like(space_id, name@)(*p), { p.space_id == space_id && same_ignore_case(p.project_name.as_str(), name.as_str()) };
    let found = find_index(&db.projects, pred, Ghost(project_named_like(space_id, name@)));
    proof {
        if found is Some {
            assert(project_named_like(space_id, name@)(db@.projects[found->0 as int]));
        }
    }
    found.is_some()
}

/// A listing of projects: the total that the page reports and the page,
/// newest (highest id) first.
pub open spec fn project_listing(rows: Seq<Project>, q: PaginateQuery) -> Result<(i64, Seq<Project>), DbError> {
    match page_of(sort_desc(rows, project_id_le()), q.page, q.per_page) {
        Err(e) => Err(e),
        Ok((p, t)) => Ok((t as i64, p)),
    }
}

fn list_projects(rows: &Vec<Project>, q: &PaginateQuery) -> (r: Result<(i64, Vec<Project>), DbError>)
    ensures
        match project_listing(rows@, *q) {
            Err(e) => r == Err::<(i64, Vec<Project>), DbError>(e),
            Ok((t, p)) => r matches Ok((n, v)) && n == t && v@ == p,
        },
{
    let le = |a: &Project, b: &Project| -> (x: bool) ensures x == project_id_le()(*a, *b), { a.id <= b.id };
    let sorted = sort_rows_desc(rows, le, Ghost(project_id_le()));
    match paginate(&sorted, q.page, q.per_page) {
        Ok((v, t)) => Ok((t, v)),
        Err(e) => Err(e),
    }
}

/// An admin of the named space creates a project under a name that no
/// project of the space has (ignoring case).
pub fn create_project_db(db: &mut Store, uid: i32, space_name: &PathInfo, item: &AddProject, now: DateTime) -> (r:
    Result<OptionalResponse<String, Project>, DbError>)
    requires
        old(db)@.ids.projects < i32::MAX,
    ensures
        match member_ctx(old(db)@, uid, space_name.info@) {
            Err(e) => rview(r) == Err::<(bool, Option<Seq<char>>, Option<Project>), DbError>(e)
                && final(db)@ == old(db)@,
            Ok((u, s, m)) => if !m.admin_status {
                final(db)@ == old(db)@ && rview(r) == Ok::<
                    (bool, Option<Seq<char>>, Option<Project>),
                    DbError,
                >((false, Some("Only admin authorized to create a project"@), None))
            } else if project_name_clash(old(db)@, s.id, item.project_name@) {
                final(db)@ == old(db)@ && rview(r) == Ok::<
                    (bool, Option<Seq<char>>, Option<Project>),
                    DbError,
                >((false, Some("A similar Project name alrady exist"@), None))
            } else {
                let p = Project {
                    id: old(db)@.ids.projects,
                    project_name: item.project_name,
                    space_id: s.id,
                    created_at: now,
                };
                final(db)@ == view_push_projects(old(db)@, p) && rview(r) == Ok::<
                    (bool, Option<Seq<char>>, Option<Project>),
                    DbError,
                >((true, Some("Project created successfully"@), Some(p)))
            },
        },
{
    let (_u, s, m) = match load_member_ctx(db, uid, space_name.info.as_str()) {
        Ok(x) => x,
        Err(e) => return Err(e),
    };
    if !m.admin_status {
        return Ok(opt_reply(false, "Only admin authorized to create a project", None));
    }
    if project_name_taken(db, s.id, &item.project_name) {
        return Ok(opt_reply(false, "A similar Project name alrady exist", None));
    }
    let p = db.insert_projects(item.project_name.clone(), s.id, now);
    Ok(opt_reply(true, "Project created successfully", Some(p)))
}

/// An admin of the named space renames the project with the given id,
/// unless a project of the space already has the new name (ignoring case).
pub fn update_project_db(db: &mut Store, uid: i32, space_name: &AddUserToFolderPath, item: &AddProject) -> (r:
    Result<Response<String>, DbError>)
    ensures
        match member_ctx(old(db)@, uid, space_name.info@) {
            Err(e) => r == Err::<Response<String>, DbError>(e) && final(db)@ == old(db)@,
            Ok((u, s, m)) => if !m.admin_status {
                final(db)@ == old(db)@ && (r matches Ok(resp) && resp@ == (
                    false,
                    "Only admin authorized to update a project"@,
                ))
            } else if project_name_clash(old(db)@, s.id, item.project_name@) {
                final(db)@ == old(db)@ && (r matches Ok(resp) && resp@ == (
                    false,
                    "A similar project name alrady exist"@,
                ))
            } else {
                final(db)@ == (DbView { projects: update_where(old(db)@.projects, project_id_is(space_name.id), with_project_name(item.project_name)), ..old(db)@ })
                    && (r matches Ok(resp) && resp@ == (true, "Project details updated successfullt"@))
            },
        },
{
    let (_u, s, m) = match load_member_ctx(db, uid, space_name.info.as_str()) {
        Ok(x) => x,
        Err(e) => return Err(e),
    };
    if !m.admin_status {
        return Ok(reply(false, "Only admin authorized to update a project"));
    }
    if project_name_taken(db, s.id, &item.project_name) {
        return Ok(reply(false, "A similar project name alrady exist"));
    }
    let id = space_name.id;
    let name = &item.project_name;
    let pred = |p: &Project| -> (b: bool) ensures b == project_id_is(id)(*p), { p.id == id };
    let f = |p: &Project| -> (r: Project) ensures r == with_project_name(*name)(*p), { Project { project_name: name.clone(), ..p.duplicate() } };
    update_rows(&mut db.projects, pred, f, Ghost(project_id_is(id)), Ghost(with_project_name(*name)));
    Ok(reply(true, "Project details updated successfullt"))
}

/// The projects of the named space, newest first, paginated.
pub fn get_all_projects_db(db: &Store, uid: i32, space_name: &PathInfo, item: &PaginateQuery) -> (r:
    Result<Response<(i64, Vec<Project>)>, DbError>)
    ensures
        rview(r) == match member_ctx(db@, uid, space_name.info@) {
            Err(e) => Err(e),
            Ok((u, s, m)) => match project_listing(db@.projects.filter(projects_of_space(s.id)), *item) {
                Err(e) => Err(e),
                Ok(l) => Ok((true, l)),
            },
        },
{
    let (_u, s, _m) = match load_member_ctx(db, uid, space_name.info.as_str()) {
        Ok(x) => x,
        Err(e) => return Err(e),
    };
    let sid = s.id;
    let pred = |p: &Project| -> (b: bool) ensures b == projects_of_space(sid)(*p), { p.space_id == sid };
    let found = select_rows(&db.projects, pred, Ghost(projects_of_space(sid)));
    match list_projects(&found, item) {
        Ok(l) => Ok(Response::new(true, l)),
        Err(e) => Err(e),
    }
}

/// A project of the named space, found by name.
pub open spec fn project_by_name(v: DbView, space_id: i32, pat: Seq<char>) -> Result<Project, DbError> {
    if !ilike_pattern_ok(pat) {
        Err(DbError::BadPattern)
    } else {
        match first_match(v.projects, project_name_ilike(space_id, pat)) {
            None => Err(DbError::NotFound),
            Some(p) => Ok(p),
        }
    }
}

/// Finds a project of a space by name.
pub fn find_project_by_name(db: &Store, space_id: i32, pat: &String) -> (r: Result<Project, DbError>)
    ensures
        r == project_by_name(db@, space_id, pat@),
{
    if !ilike_pattern_valid(pat.as_str()) {
        return Err(DbError::BadPattern);
    }
    let pred = |p: &Project| -> (b: bool) ensures b == project_name_ilike(space_id, pat@)(*p), { p.space_id == space_id && ilike_holds(p.project_name.as_str(), pat.as_str()) };
    match find_row(&db.projects, pred, Ghost(project_name_ilike(space_id, pat@))) {
        Some(p) => Ok(p),
        None => Err(DbError::NotFound),
    }
}

/// A project of the named space found by name, for a member.
pub fn get_project_details_db(db: &Store, uid: i32, space_name: &ChannelPathInfo) -> (r: Result<
    Response<Project>,
    DbError,
>)
    ensures
        r == match member_ctx(db@, uid, space_name.info@) {
            Err(e) => Err(e),
            Ok((u, s, m)) => match project_by_name(db@, s.id, space_name.channel@) {
                Err(e) => Err(e),
                Ok(p) => Ok(Response { success: true, message: p }),
            },
        },
{
    let (_u, s, _m) = match load_member_ctx(db, uid, space_name.info.as_str()) {
        Ok(x) => x,
        Err(e) => return Err(e),
    };
    match find_project_by_name(db, s.id, &space_name.channel) {
        Ok(p) => Ok(Response::new(true, p)),
        Err(e) => Err(e),
    }
}

/// The projects of the named space whose name contains the text, newest
/// first, paginated.
pub fn search_project_db(db: &Store, uid: i32, space_name: &MailChannelPathInfo, item: &PaginateQuery) -> (r:
    Result<Response<(i64, Vec<Project>)>, DbError>)
    ensures
        rview(r) == match member_ctx(db@, uid, space_name.info@) {
            Err(e) => Err(e),
            Ok((u, s, m)) => {
                let pat = contains_pattern(space_name.name@);
                if !ilike_pattern_ok(pat) {
                    Err(DbError::BadPattern)
                } else {
                    match project_listing(db@.projects.filter(project_name_ilike(s.id, pat)), *item) {
                        Err(e) => Err(e),
                        Ok(l) => Ok((true, l)),
                    }
                }
            },
        },
{
    let (_u, s, _m) = match load_member_ctx(db, uid, space_name.info.as_str()) {
        Ok(x) => x,
        Err(e) => return Err(e),
    };
    let pat = make_contains_pattern(&space_name.name);
    if !ilike_pattern_valid(pat.as_str()) {
        return Err(DbError::BadPattern);
    }
    let sid = s.id;
    let p = &pat;
    let pred = |x: &Project| -> (b: bool) ensures b == project_name_ilike(sid, p@)(*x), { x.space_id == sid && ilike_holds(x.project_name.as_str(), p.as_str()) };
    let found = select_rows(&db.projects, pred, Ghost(project_name_ilike(sid, pat@)));
    match list_projects(&found, item) {
        Ok(l) => Ok(Response::new(true, l)),
        Err(e) => Err(e),
    }
}

/// Tasks of a project.
pub open spec fn tasks_of_project(project_id: i32) -> spec_fn(Task) -> bool {
    |t: Task| t.project_id == project_id
}

/// Assignments to one of the given tasks.
pub open spec fn assigned_to_any(ts: Seq<Task>) -> spec_fn(UserTask) -> bool {
    |a: UserTask| exists|i: int| 0 <= i < ts.len() && (#[trigger] ts[i]).id == a.task_id
}

/// Whether one of the tasks has this id.
pub fn has_task_id(ts: &Vec<Task>, id: i32) -> (r: bool)
    ensures
        r == exists|i: int| 0 <= i < ts.len() && (#[trigger] ts@[i]).id == id,
{
    let mut i: usize = 0;
    while i < ts.len()
        invariant
            i <= ts.len(),
            forall|k: int| 0 <= k < i ==> (#[trigger] ts@[k]).id != id,
        decreases ts.len() - i,
    {
        if ts[i].id == id {
            return true;
        }
        i = i + 1;
    }
    false
}

/// Deletes the assignments of the given tasks.
pub fn delete_assignments_of(db: &mut Store, ts: &Vec<Task>)
    ensures
        final(db)@ == (DbView { user_tasks: delete_where(old(db)@.user_tasks, assigned_to_any(ts@)), ..old(db)@ }),
{
    let pred = |a: &UserTask| -> (b: bool) ensures b == assigned_to_any(ts@)(*a), { has_task_id(ts, a.task_id) };
    delete_rows(&mut db.user_tasks, pred, Ghost(assigned_to_any(ts@)));
}

/// The view after deleting a project with its tasks and their assignments.
pub open spec fn view_delete_project(v: DbView, project_id: i32) -> DbView {
    DbView {
        user_tasks: delete_where(v.user_tasks, assigned_to_any(v.tasks.filter(tasks_of_project(project_id)))),
        tasks: delete_where(v.tasks, tasks_of_project(project_id)),
        projects: delete_where(v.projects, project_id_is(project_id)),
        ..v
    }
}

/// An admin of the named space deletes the project with the given id,
/// its tasks and the assignments of those tasks.
pub fn delete_project_db(db: &mut Store, uid: i32, space_name: &AddUserToFolderPath) -> (r: Result<
    Response<String>,
    DbError,
>)
    ensures
        match member_ctx(old(db)@, uid, space_name.info@) {
            Err(e) => r == Err::<Response<String>, DbError>(e) && final(db)@ == old(db)@,
            Ok((u, s, m)) => if !m.admin_status {
                final(db)@ == old(db)@ && (r matches Ok(resp) && resp@ == (
                    false,
                    "Only admin authorized to delte a project"@,
                ))
            } else {
                final(db)@ == view_delete_project(old(db)@, space_name.id) && (r matches Ok(resp)
                    && resp@ == (true, "project deleted successfully"@))
            },
        },
{
    let (_u, _s, m) = match load_member_ctx(db, uid, space_name.info.as_str()) {
        Ok(x) => x,
        Err(e) => return Err(e),
    };
    if !m.admin_status {
        return Ok(reply(false, "Only admin authorized to delte a project"));
    }
    let pid = space_name.id;
    let pred = |t: &Task| -> (b: bool) ensures b == tasks_of_project(pid)(*t), { t.project_id == pid };
    let ts = select_rows(&db.tasks, pred, Ghost(tasks_of_project(pid)));
    delete_assignments_of(db, &ts);
    delete_rows(&mut db.tasks, pred, Ghost(tasks_of_project(pid)));
    let pred2 = |p: &Project| -> (b: bool) ensures b == project_id_is(pid)(*p), { p.id == pid };
    delete_rows(&mut db.projects, pred2, Ghost(project_id_is(pid)));
    Ok(reply(true, "project deleted successfully"))
}

} // verus!
