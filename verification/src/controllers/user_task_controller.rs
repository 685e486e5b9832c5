//! Assignment of users to tasks.
use crate::insert::view_push_user_tasks;
use crate::model::UserTask;
use crate::queries::{load_member_ctx, member_ctx};
use crate::store::{Counters, DbError, DbView, Store};
use crate::table::{delete_rows, delete_where, find_row, first_match};
use crate::types::{reply, AddUserToFoldr, AddUserToFolderPath, DeleteMailList, Response};
use vstd::prelude::*;

verus! {

/// The assignment of a user to a task.
pub open spec fn assignment_of(task_id: i32, user_id: i32) -> spec_fn(UserTask) -> bool {
    |a: UserTask| a.task_id == task_id && a.user_id == user_id
}

/// Assigns the users one after the other to a task, skipping those already assigned.
pub open spec fn assign_fold(v: DbView, task_id: i32, ids: Seq<i32>) -> DbView
    decreases ids.len(),
{
    if ids.len() == 0 {
        v
    } else {
        let v1 = assign_fold(v, task_id, ids.drop_last());
        let a = ids.last();
        match first_match(v1.user_tasks, assignment_of(task_id, a)) {
            Some(_) => v1,
            None => view_push_user_tasks(v1, UserTask { id: v1.ids.user_tasks, user_id: a, task_id }),
        }
    }
}

proof fn lemma_assign_fold_ids(v: DbView, task_id: i32, ids: Seq<i32>)
    requires
        v.ids.room(ids.len() as int),
    ensures
        v.ids.user_tasks <= assign_fold(v, task_id, ids).ids.user_tasks <= v.ids.user_tasks + ids.len(),
        assign_fold(v, task_id, ids).ids == (Counters { user_tasks: assign_fold(v, task_id, ids).ids.user_tasks, ..v.ids }),
    decreases ids.len(),
{
    if ids.len() > 0 {
        lemma_assign_fold_ids(v, task_id, ids.drop_last());
    }
}

/// An admin of the named space assigns users to the task with the given id;
/// see `assign_fold`.
pub fn add_user_to_task_db(db: &mut Store, uid: i32, space_name: &AddUserToFolderPath, item: &AddUserToFoldr) -> (r:
    Result<Response<String>, DbError>)
    requires
        old(db)@.ids.room(item.id.len() as int),
    ensures
        match member_ctx(old(db)@, uid, space_name.info@) {
            Err(e) => r == Err::<Response<String>, DbError>(e) && final(db)@ == old(db)@,
            Ok((u, s, m)) => if !m.admin_status {
                final(db)@ == old(db)@ && (r matches Ok(resp) && resp@ == (
                    false,
                    "Only admin allowed to assign task"@,
                ))
            } else {
                final(db)@ == assign_fold(old(db)@, space_name.id, item.id@) && (r matches Ok(resp)
                    && resp@ == (true, "users assigned to task"@))
            },
        },
{
    let (_u, _s, m) = match load_member_ctx(db, uid, space_name.info.as_str()) {
        Ok(x) => x,
        Err(e) => return Err(e),
    };
    if !m.admin_status {
        return Ok(reply(false, "Only admin allowed to assign task"));
    }
    let tid = space_name.id;
    let ghost v0 = db@;
    let mut i: usize = 0;
    while i < item.id.len()
        invariant
            i <= item.id.len(),
            v0.ids.room(item.id.len() as int),
            db@ == assign_fold(v0, tid, item.id@.take(i as int)),
        decreases item.id.len() - i,
    {
        proof {
            assert(item.id@.take(i + 1).drop_last() =~= item.id@.take(i as int));
            lemma_assign_fold_ids(v0, tid, item.id@.take(i as int));
        }
        let a = item.id[i];
        let pred = |x: &UserTask| -> (b: bool) ensures b == assignment_of(tid, a)(*x), { x.task_id == tid && x.user_id == a };
        match find_row(&db.user_tasks, pred, Ghost(assignment_of(tid, a))) {
            Some(_) => {},
            None => {
                db.insert_user_tasks(a, tid);
            },
        }
        i = i + 1;
    }
    proof {
        assert(item.id@.take(item.id.len() as int) =~= item.id@);
    }
    Ok(reply(true, "users assigned to task"))
}

/// An admin of the named space removes a user from the task with the given id.
pub fn remove_user_from_task_db(db: &mut Store, uid: i32, space_name: &AddUserToFolderPath, item: &DeleteMailList) -> (r:
    Result<Response<String>, DbError>)
    ensures
        match member_ctx(old(db)@, uid, space_name.info@) {
            Err(e) => r == Err::<Response<String>, DbError>(e) && final(db)@ == old(db)@,
            Ok((u, s, m)) => if !m.admin_status {
                final(db)@ == old(db)@ && (r matches Ok(resp) && resp@ == (
                    false,
                    "Only admin allowed to assign task"@,
                ))
            } else {
                final(db)@ == (DbView { user_tasks: delete_where(old(db)@.user_tasks, assignment_of(space_name.id, item.id)), ..old(db)@ })
                    && (r matches Ok(resp) && resp@ == (true, "user removed successfully"@))
            },
        },
{
    let (_u, _s, m) = match load_member_ctx(db, uid, space_name.info.as_str()) {
        Ok(x) => x,
        Err(e) => return Err(e),
    };
    if !m.admin_status {
        return Ok(reply(false, "Only admin allowed to assign task"));
    }
    let tid = space_name.id;
    let who = item.id;
    let pred = |x: &UserTask| -> (b: bool) ensures b == assignment_of(tid, who)(*x), { x.task_id == tid && x.user_id == who };
    delete_rows(&mut db.user_tasks, pred, Ghost(assignment_of(tid, who)));
    Ok(reply(true, "user removed successfully"))
}

} // verus!
