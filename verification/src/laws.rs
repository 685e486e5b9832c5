//! Properties of the service that span several operations or hold of every
//! state they leave behind, each proved over the operations' contracts.
use crate::controllers::channel_controller::{
    channel_name_clash, channel_named_like, create_channel_post, edit_channel_post,
};
use crate::controllers::channel_user_controller::{add_to_channel_fold, channel_ctx};
use crate::controllers::project_controller::{
    assigned_to_any, project_id_is, tasks_of_project, view_delete_project,
};
use crate::controllers::event_controller::{event_id_is, with_event_text};
use crate::controllers::mail_user_controller::{folder_fold, folder_member};
use crate::controllers::user_chat_controller::{
    chat_list_of, entry_updated_le, listed_for, partners, partners_exist,
};
use crate::controllers::space_controller::{
    add_space_post, invite_fold, membership_id_is, space_with_id, view_join_space,
    with_name_desc,
};
use crate::controllers::user_controller::{email_is, email_taken};
use crate::controllers::user_task_controller::{assign_fold, assignment_of};
use crate::auth::{
    days_later, digits_value, is_digit, jwt_claims, parsed_i32, token_names, unsigned_part,
    whole_seconds,
};
use crate::datetime::{dt_le, lemma_dt_le_order, unix_seconds_of, DateTime};
use crate::helpers::bcrypt::bcrypt_verify;
use crate::helpers::schedule::{after_reminders, due, ids_of};
use crate::helpers::socket::{decimal, digit_char, digits};
use crate::insert::view_push_users;
use crate::model::{
    AssetContent, ChannelChat, ChannelUser, ChatList, ChatThread, Event, Project, Space, SpaceChannel, SpaceUser, Task, User, UserChat, UserMail, UserTask,
};
use crate::controllers::asset_content_controller::contents_of;
use crate::controllers::channel_chat_controller::chats_of_channel;
use crate::controllers::channel_controller::members_of_channel;
use crate::controllers::channel_user_controller::user_channels_in_space;
use crate::controllers::chat_thread_controller::replies_to;
use crate::controllers::event_controller::events_of_space;
use crate::controllers::mail_user_controller::in_folder;
use crate::controllers::project_controller::projects_of_space;
use crate::controllers::space_controller::{members_of_space, spaces_of_user};
use crate::controllers::user_chat_controller::sent_between;
use crate::controllers::channel_chat_controller::{chat_id_is, with_chat_text};
use crate::controllers::channel_controller::{channel_id_is, with_channel_name};
use crate::controllers::channel_user_controller::with_channel_admin;
use crate::controllers::chat_thread_controller::{reply_id_is, with_reply_text};
use crate::controllers::project_controller::with_project_name;
use crate::controllers::space_controller::{with_admin, with_logo};
use crate::controllers::task_controller::{task_id_is, with_task_status, with_task_text};
use crate::controllers::user_chat_controller::{entry_of, message_id_is, touched, with_message_text};
use crate::controllers::user_controller::{as_verified, with_image, with_password, with_username};
use crate::paginate::{page_count, page_of};
use crate::queries::{
    channel_by_name, channel_in_space, channel_member_of, channel_name_ilike, in_channel, member_ctx, member_of,
    member_row, user_id_is, user_row,
    space_by_name, space_name_ilike, user_by_email, user_email_ilike, };
use crate::text::{eq_ignore_case, escape_char, lemma_ilike_self, lowercase};
use crate::types::{ChannelPathInfo, CreateSpace};
use crate::store::{DbError, DbView};
use crate::table::{
    any_match, delete_where, first_match, lemma_filter_exact, lemma_first_match_none,
    lemma_first_match_push, lemma_first_match_some, lemma_sort_desc_multiset, lemma_sort_desc_sorted, total_preorder, update_where,
};
use vstd::prelude::*;

verus! {

/// No two rows of the table are the same in the sense of `same`.
pub open spec fn no_two<T>(s: Seq<T>, same: spec_fn(T, T) -> bool) -> bool {
    forall|i: int, j: int| 0 <= i < j < s.len() ==> !same(#[trigger] s[i], #[trigger] s[j])
}

/// Appending a row that no present row is the same as keeps the rows distinct.
proof fn lemma_push_keeps_no_two<T>(s: Seq<T>, x: T, same: spec_fn(T, T) -> bool, p: spec_fn(T) -> bool)
    requires
        no_two(s, same),
        first_match(s, p) is None,
        forall|y: T| #[trigger] same(y, x) ==> p(y),
    ensures
        no_two(s.push(x), same),
{
    lemma_first_match_some(s, p);
    let t = s.push(x);
    assert forall|i: int, j: int| 0 <= i < j < t.len() implies !same(#[trigger] t[i], #[trigger] t[j]) by {
        if j == s.len() {
            assert(t[j] == x);
            assert(t[i] == s[i]);
            if same(s[i], x) {
                assert(p(s[i]));
            }
        } else {
            assert(t[i] == s[i] && t[j] == s[j]);
        }
    }
}

/// Two memberships of one user in one channel.
pub open spec fn same_channel_member() -> spec_fn(ChannelUser, ChannelUser) -> bool {
    |a: ChannelUser, b: ChannelUser| a.space_channel_id == b.space_channel_id && a.user_id == b.user_id
}

/// Adding users to a channel never makes a user a member of a channel twice,
/// and every listed user is a member of the channel afterwards.
pub proof fn law_channel_add_keeps_members_unique(v: DbView, channel_id: i32, space_id: i32, ids: Seq<i32>)
    requires
        no_two(v.channel_users, same_channel_member()),
    ensures
        no_two(add_to_channel_fold(v, channel_id, space_id, ids).channel_users, same_channel_member()),
        forall|k: int| 0 <= k < ids.len() ==> first_match(
            add_to_channel_fold(v, channel_id, space_id, ids).channel_users,
            in_channel(channel_id, #[trigger] ids[k]),
        ) is Some,
    decreases ids.len(),
{
    if ids.len() > 0 {
        let rest = ids.drop_last();
        law_channel_add_keeps_members_unique(v, channel_id, space_id, rest);
        let v1 = add_to_channel_fold(v, channel_id, space_id, rest);
        let a = ids.last();
        let w = add_to_channel_fold(v, channel_id, space_id, ids);
        if first_match(v1.channel_users, in_channel(channel_id, a)) is None {
            let x = ChannelUser {
                id: v1.ids.channel_users,
                space_channel_id: channel_id,
                space_id,
                user_id: a,
                channel_admin: false,
                viewed: 0,
            };
            assert(w.channel_users == v1.channel_users.push(x));
            lemma_push_keeps_no_two(v1.channel_users, x, same_channel_member(), in_channel(channel_id, a));
            assert forall|k: int| 0 <= k < ids.len() implies first_match(
                w.channel_users,
                in_channel(channel_id, #[trigger] ids[k]),
            ) is Some by {
                lemma_first_match_push(v1.channel_users, x, in_channel(channel_id, ids[k]));
                if k < rest.len() {
                    assert(rest[k] == ids[k]);
                }
            }
        } else {
            assert forall|k: int| 0 <= k < ids.len() implies first_match(
                w.channel_users,
                in_channel(channel_id, #[trigger] ids[k]),
            ) is Some by {
                if k < rest.len() {
                    assert(rest[k] == ids[k]);
                }
            }
        }
    }
}

/// Two assignments of one user to one task.
pub open spec fn same_assignment() -> spec_fn(UserTask, UserTask) -> bool {
    |a: UserTask, b: UserTask| a.task_id == b.task_id && a.user_id == b.user_id
}

/// Assigning users to a task never assigns a user to a task twice, and every
/// listed user is assigned to the task afterwards.
pub proof fn law_task_assign_keeps_assignees_unique(v: DbView, task_id: i32, ids: Seq<i32>)
    requires
        no_two(v.user_tasks, same_assignment()),
    ensures
        no_two(assign_fold(v, task_id, ids).user_tasks, same_assignment()),
        forall|k: int| 0 <= k < ids.len() ==> first_match(
            assign_fold(v, task_id, ids).user_tasks,
            assignment_of(task_id, #[trigger] ids[k]),
        ) is Some,
    decreases ids.len(),
{
    if ids.len() > 0 {
        let rest = ids.drop_last();
        law_task_assign_keeps_assignees_unique(v, task_id, rest);
        let v1 = assign_fold(v, task_id, rest);
        let a = ids.last();
        let w = assign_fold(v, task_id, ids);
        if first_match(v1.user_tasks, assignment_of(task_id, a)) is None {
            let x = UserTask { id: v1.ids.user_tasks, user_id: a, task_id };
            assert(w.user_tasks == v1.user_tasks.push(x));
            lemma_push_keeps_no_two(v1.user_tasks, x, same_assignment(), assignment_of(task_id, a));
            assert forall|k: int| 0 <= k < ids.len() implies first_match(
                w.user_tasks,
                assignment_of(task_id, #[trigger] ids[k]),
            ) is Some by {
                lemma_first_match_push(v1.user_tasks, x, assignment_of(task_id, ids[k]));
                if k < rest.len() {
                    assert(rest[k] == ids[k]);
                }
            }
        } else {
            assert forall|k: int| 0 <= k < ids.len() implies first_match(
                w.user_tasks,
                assignment_of(task_id, #[trigger] ids[k]),
            ) is Some by {
                if k < rest.len() {
                    assert(rest[k] == ids[k]);
                }
            }
        }
    }
}

/// Two memberships of one user in one mail folder.
pub open spec fn same_folder_member() -> spec_fn(UserMail, UserMail) -> bool {
    |a: UserMail, b: UserMail| a.mail_list_id == b.mail_list_id && a.user_id == b.user_id
}

/// Adding users to a mail folder never adds a user to a folder twice, and
/// every listed user is in the folder afterwards.
pub proof fn law_folder_add_keeps_members_unique(v: DbView, list_id: i32, ids: Seq<i32>)
    requires
        no_two(v.usermails, same_folder_member()),
    ensures
        no_two(folder_fold(v, list_id, ids).usermails, same_folder_member()),
        forall|k: int| 0 <= k < ids.len() ==> first_match(
            folder_fold(v, list_id, ids).usermails,
            folder_member(list_id, #[trigger] ids[k]),
        ) is Some,
    decreases ids.len(),
{
    if ids.len() > 0 {
        let rest = ids.drop_last();
        law_folder_add_keeps_members_unique(v, list_id, rest);
        let v1 = folder_fold(v, list_id, rest);
        let a = ids.last();
        let w = folder_fold(v, list_id, ids);
        if first_match(v1.usermails, folder_member(list_id, a)) is None {
            let x = UserMail { id: v1.ids.usermails, mail_list_id: list_id, user_id: a };
            assert(w.usermails == v1.usermails.push(x));
            lemma_push_keeps_no_two(v1.usermails, x, same_folder_member(), folder_member(list_id, a));
            assert forall|k: int| 0 <= k < ids.len() implies first_match(
                w.usermails,
                folder_member(list_id, #[trigger] ids[k]),
            ) is Some by {
                lemma_first_match_push(v1.usermails, x, folder_member(list_id, ids[k]));
                if k < rest.len() {
                    assert(rest[k] == ids[k]);
                }
            }
        } else {
            assert forall|k: int| 0 <= k < ids.len() implies first_match(
                w.usermails,
                folder_member(list_id, #[trigger] ids[k]),
            ) is Some by {
                if k < rest.len() {
                    assert(rest[k] == ids[k]);
                }
            }
        }
    }
}

/// Two memberships of one user in one space.
pub open spec fn same_space_member() -> spec_fn(SpaceUser, SpaceUser) -> bool {
    |a: SpaceUser, b: SpaceUser| a.space_id == b.space_id && a.user_id == b.user_id
}

/// One invitation step: the store after inviting the last address of the list.
proof fn lemma_invite_last_step(v: DbView, space_id: i32, general_id: i32, emails: Seq<String>)
    requires
        emails.len() > 0,
    ensures
        ({
            let v1 = invite_fold(v, space_id, general_id, emails.drop_last()).0;
            let w = invite_fold(v, space_id, general_id, emails).0;
            match user_by_email(v1, emails.last()@) {
                Ok(u) => if member_row(v1, space_id, u.id) is None {
                    w == view_join_space(v1, space_id, general_id, u.id)
                } else {
                    w == v1
                },
                Err(_) => w == v1,
            }
        }),
{
}

/// Inviting addresses to a space never makes a user a member of a space
/// twice.
pub proof fn law_invite_keeps_members_unique(v: DbView, space_id: i32, general_id: i32, emails: Seq<String>)
    requires
        no_two(v.spaces_users, same_space_member()),
    ensures
        no_two(invite_fold(v, space_id, general_id, emails).0.spaces_users, same_space_member()),
    decreases emails.len(),
{
    if emails.len() > 0 {
        let rest = emails.drop_last();
        law_invite_keeps_members_unique(v, space_id, general_id, rest);
        lemma_invite_last_step(v, space_id, general_id, emails);
        let v1 = invite_fold(v, space_id, general_id, rest).0;
        if let Ok(u) = user_by_email(v1, emails.last()@) {
            if member_row(v1, space_id, u.id) is None {
                let x = SpaceUser { id: v1.ids.spaces_users, user_id: u.id, space_id, admin_status: false };
                lemma_push_keeps_no_two(v1.spaces_users, x, same_space_member(), member_of(space_id, u.id));
            }
        }
    }
}

/// Whether inviting `e` into the store `v1` leaves its user (if registered)
/// a member of the space in the store `w`.
pub open spec fn invited_member_in(v1: DbView, e: String, w: DbView, space_id: i32) -> bool {
    match user_by_email(v1, e@) {
        Ok(u) => member_row(w, space_id, u.id) is Some,
        Err(_) => true,
    }
}

/// A member of the space stays one through the rest of the invitations.
proof fn lemma_invite_keeps_member(v: DbView, space_id: i32, general_id: i32, emails: Seq<String>, k: int, user_id: i32)
    requires
        0 <= k <= emails.len(),
        member_row(invite_fold(v, space_id, general_id, emails.take(k)).0, space_id, user_id) is Some,
    ensures
        member_row(invite_fold(v, space_id, general_id, emails).0, space_id, user_id) is Some,
    decreases emails.len() - k,
{
    if k < emails.len() {
        let t = emails.take(k + 1);
        assert(t.drop_last() =~= emails.take(k));
        lemma_invite_last_step(v, space_id, general_id, t);
        let v1 = invite_fold(v, space_id, general_id, emails.take(k)).0;
        if let Ok(u) = user_by_email(v1, t.last()@) {
            if member_row(v1, space_id, u.id) is None {
                let x = SpaceUser { id: v1.ids.spaces_users, user_id: u.id, space_id, admin_status: false };
                lemma_first_match_push(v1.spaces_users, x, member_of(space_id, user_id));
            }
        }
        lemma_invite_keeps_member(v, space_id, general_id, emails, k + 1, user_id);
    } else {
        assert(emails.take(k) =~= emails);
    }
}

/// Every invited address that belongs to a registered user (when its turn
/// comes) leaves that user a member of the space.
pub proof fn law_invite_makes_members(v: DbView, space_id: i32, general_id: i32, emails: Seq<String>, k: int)
    requires
        0 <= k < emails.len(),
    ensures
        invited_member_in(
            invite_fold(v, space_id, general_id, emails.take(k)).0,
            emails[k],
            invite_fold(v, space_id, general_id, emails).0,
            space_id,
        ),
{
    let t = emails.take(k + 1);
    assert(t.drop_last() =~= emails.take(k));
    assert(t.last() == emails[k]);
    lemma_invite_last_step(v, space_id, general_id, t);
    let v1 = invite_fold(v, space_id, general_id, emails.take(k)).0;
    if let Ok(u) = user_by_email(v1, emails[k]@) {
        if member_row(v1, space_id, u.id) is None {
            let x = SpaceUser { id: v1.ids.spaces_users, user_id: u.id, space_id, admin_status: false };
            lemma_first_match_push(v1.spaces_users, x, member_of(space_id, u.id));
        }
        lemma_invite_keeps_member(v, space_id, general_id, emails, k + 1, u.id);
    }
}

/// An account just registered can log in with its e-mail and password:
/// looking its e-mail up finds it, and its stored hash checks against the
/// password (see `add_user_db` and `login_db`). This holds unless the
/// lower-cased e-mail holds an escape character, or an earlier account's
/// e-mail already matches the new one as a pattern.
pub proof fn law_registered_user_can_log_in(v: DbView, u: User, password: Seq<char>)
    requires
        bcrypt_verify(password, u.user_password@) == Some(true),
        !lowercase(u.email@).contains(escape_char()),
        !any_match(v.users, user_email_ilike(u.email@)),
    ensures
        user_by_email(view_push_users(v, u), u.email@) == Ok::<User, DbError>(u),
        bcrypt_verify(password, u.user_password@) == Some(true),
{
    lemma_ilike_self(u.email@);
    lemma_first_match_some(v.users, user_email_ilike(u.email@));
    lemma_first_match_push(v.users, u, user_email_ilike(u.email@));
}

/// A space just created is found by its name afterwards (see
/// `add_space_db` and `get_space_db`), unless its lower-cased name holds an
/// escape character.
pub proof fn law_created_space_found_by_name(
    v: DbView,
    w: DbView,
    uid: i32,
    item: CreateSpace,
    now: DateTime,
    r: Result<(bool, Option<Seq<char>>, Option<Space>), DbError>,
)
    requires
        add_space_post(v, w, uid, item, now, r),
        r matches Ok((_, _, Some(_))),
        !lowercase(item.spaces_name@).contains(escape_char()),
    ensures
        match r {
            Ok((_, _, Some(s))) => space_by_name(w, item.spaces_name@) == Ok::<Space, DbError>(s),
            _ => true,
        },
{
    lemma_ilike_self(item.spaces_name@);
    let s = w.spaces.last();
    if space_by_name(v, item.spaces_name@) == Err::<Space, DbError>(DbError::NotFound) {
        lemma_first_match_push(v.spaces, s, space_name_ilike(item.spaces_name@));
    }
}

/// Two channels with the same id.
pub open spec fn same_channel_id() -> spec_fn(SpaceChannel, SpaceChannel) -> bool {
    |a: SpaceChannel, b: SpaceChannel| a.id == b.id
}

/// Two channels of one space whose names are equal ignoring case.
pub open spec fn same_channel_name() -> spec_fn(SpaceChannel, SpaceChannel) -> bool {
    |a: SpaceChannel, b: SpaceChannel| a.space_id == b.space_id && eq_ignore_case(a.channel_name@, b.channel_name@)
}

/// The channel table is in order: every id is below the next id to hand out,
/// no two channels share an id, and no two channels of a space share a name
/// ignoring case.
pub open spec fn channels_valid(v: DbView) -> bool {
    &&& forall|i: int| 0 <= i < v.spaces_channel.len() ==> (#[trigger] v.spaces_channel[i]).id < v.ids.spaces_channel
    &&& no_two(v.spaces_channel, same_channel_id())
    &&& no_two(v.spaces_channel, same_channel_name())
}

/// Creating a channel keeps the channel table in order: in particular no two
/// channels of a space ever share a name, ignoring case.
pub proof fn law_create_channel_keeps_names_distinct(
    v: DbView,
    w: DbView,
    uid: i32,
    space_name: Seq<char>,
    name: String,
    r: Result<(bool, Option<Seq<char>>, Option<SpaceChannel>), DbError>,
)
    requires
        channels_valid(v),
        v.ids.room(1),
        create_channel_post(v, w, uid, space_name, name, r),
    ensures
        channels_valid(w),
{
    if let Ok((u, s, m)) = member_ctx(v, uid, space_name) {
        if m.admin_status && !channel_name_clash(v, s.id, name@) {
            let c = SpaceChannel { id: v.ids.spaces_channel, channel_name: name, space_id: s.id };
            assert(w.spaces_channel == v.spaces_channel.push(c));
            assert(w.ids.spaces_channel == v.ids.spaces_channel + 1);
            let fresh = |y: SpaceChannel| y.id == c.id;
            assert forall|k: int| 0 <= k < v.spaces_channel.len() implies !fresh(#[trigger] v.spaces_channel[k]) by {}
            lemma_first_match_none(v.spaces_channel, fresh);
            lemma_push_keeps_no_two(v.spaces_channel, c, same_channel_id(), fresh);
            lemma_first_match_some(v.spaces_channel, channel_named_like(s.id, name@));
            lemma_push_keeps_no_two(v.spaces_channel, c, same_channel_name(), channel_named_like(s.id, name@));
            assert forall|i: int| 0 <= i < w.spaces_channel.len() implies (#[trigger] w.spaces_channel[i]).id < w.ids.spaces_channel by {
                if i < v.spaces_channel.len() {
                    assert(w.spaces_channel[i] == v.spaces_channel[i]);
                }
            }
        }
    }
}

/// Renaming a channel keeps the channel table in order: in particular no two
/// channels of a space ever share a name, ignoring case.
pub proof fn law_rename_channel_keeps_names_distinct(
    v: DbView,
    w: DbView,
    uid: i32,
    space_name: Seq<char>,
    channel: Seq<char>,
    name: String,
    r: Result<(bool, Seq<char>), DbError>,
)
    requires
        channels_valid(v),
        edit_channel_post(v, w, uid, space_name, channel, name, r),
    ensures
        channels_valid(w),
{
    if let Ok((_u, s, _m)) = member_ctx(v, uid, space_name) {
        if !channel_name_clash(v, s.id, name@) {
            if let Ok(c) = channel_by_name(v, s.id, channel) {
                if lowercase(c.channel_name@) != "general"@ {
                    let old_rows = v.spaces_channel;
                    let rows = w.spaces_channel;
                    lemma_first_match_some(old_rows, channel_name_ilike(s.id, channel));
                    lemma_first_match_some(old_rows, channel_named_like(s.id, name@));
                    let k = choose|k: int| 0 <= k < old_rows.len() && old_rows[k] == c;
                    assert(rows.len() == old_rows.len());
                    assert forall|i: int| 0 <= i < rows.len() implies #[trigger] rows[i] == (if i == k {
                        SpaceChannel { channel_name: name, ..c }
                    } else {
                        old_rows[i]
                    }) by {
                        if i != k {
                            assert(!same_channel_id()(old_rows[i], old_rows[k]) || !same_channel_id()(old_rows[k], old_rows[i]));
                        }
                    }
                    assert forall|i: int, j: int| 0 <= i < j < rows.len() implies !same_channel_id()(#[trigger] rows[i], #[trigger] rows[j]) by {
                        assert(!same_channel_id()(old_rows[i], old_rows[j]));
                    }
                    assert forall|i: int, j: int| 0 <= i < j < rows.len() implies !same_channel_name()(#[trigger] rows[i], #[trigger] rows[j]) by {
                        if i == k {
                            if same_channel_name()(rows[i], rows[j]) {
                                assert(channel_named_like(s.id, name@)(old_rows[j]));
                            }
                        } else if j == k {
                            if same_channel_name()(rows[i], rows[j]) {
                                assert(channel_named_like(s.id, name@)(old_rows[i]));
                            }
                        } else {
                            assert(!same_channel_name()(old_rows[i], old_rows[j]));
                        }
                    }
                    assert forall|i: int| 0 <= i < rows.len() implies (#[trigger] rows[i]).id < w.ids.spaces_channel by {
                        assert(old_rows[i].id < v.ids.spaces_channel);
                    }
                }
            }
        }
    }
}

/// Deleting a project leaves no project of that id, no task of the
/// project, and no assignment to one of its tasks.
pub proof fn law_deleted_project_leaves_nothing(v: DbView, project_id: i32)
    ensures
        forall|i: int| 0 <= i < view_delete_project(v, project_id).projects.len()
            ==> (#[trigger] view_delete_project(v, project_id).projects[i]).id != project_id,
        forall|i: int| 0 <= i < view_delete_project(v, project_id).tasks.len()
            ==> (#[trigger] view_delete_project(v, project_id).tasks[i]).project_id != project_id,
        forall|i: int, j: int| 0 <= i < view_delete_project(v, project_id).user_tasks.len() && 0 <= j < v.tasks.len()
            && (#[trigger] v.tasks[j]).project_id == project_id
            ==> (#[trigger] view_delete_project(v, project_id).user_tasks[i]).task_id != v.tasks[j].id,
{
    broadcast use vstd::seq_lib::group_filter_ensures;

    let w = view_delete_project(v, project_id);
    let gone = v.tasks.filter(tasks_of_project(project_id));
    assert forall|i: int, j: int| 0 <= i < w.user_tasks.len() && 0 <= j < v.tasks.len()
        && (#[trigger] v.tasks[j]).project_id == project_id
        implies (#[trigger] w.user_tasks[i]).task_id != v.tasks[j].id by {
        let keep = |a: UserTask| !assigned_to_any(gone)(a);
        assert(keep(v.user_tasks.filter(keep)[i]));
        assert(gone.contains(v.tasks[j]));
        let k = choose|k: int| 0 <= k < gone.len() && gone[k] == v.tasks[j];
        if w.user_tasks[i].task_id == v.tasks[j].id {
            assert(assigned_to_any(gone)(w.user_tasks[i]));
        }
    }
    assert forall|i: int| 0 <= i < w.tasks.len() implies (#[trigger] w.tasks[i]).project_id != project_id by {
        let keep = |t: Task| !tasks_of_project(project_id)(t);
        assert(keep(v.tasks.filter(keep)[i]));
    }
    assert forall|i: int| 0 <= i < w.projects.len() implies (#[trigger] w.projects[i]).id != project_id by {
        let keep = |p: Project| !project_id_is(project_id)(p);
        assert(keep(v.projects.filter(keep)[i]));
    }
}

/// The reminder job reminds of an event once: right after it ran, no event
/// of that day is due any more, so a second run the same day finds nothing.
pub proof fn law_reminders_sent_once(v: DbView, today: DateTime)
    ensures
        after_reminders(v, today).events.filter(due(today)).len() == 0,
{
    broadcast use vstd::seq_lib::group_filter_ensures;

    let w = after_reminders(v, today);
    let ds = v.events.filter(due(today));
    let ids = ids_of(ds);
    assert forall|i: int| 0 <= i < w.events.len() implies !due(today)(#[trigger] w.events[i]) by {
        let e = v.events[i];
        if !ids.contains(e.id) && due(today)(e) {
            assert(ds.contains(e));
            let k = choose|k: int| 0 <= k < ds.len() && ds[k] == e;
            assert(ids[k] == e.id);
        }
    }
    assert(w.events.all(|x: Event| !due(today)(x)));
    w.events.lemma_all_neg_filter_empty(due(today));
}

/// A digit character stands for its digit.
proof fn lemma_digit_char_value(d: int)
    requires
        0 <= d < 10,
    ensures
        digit_char(d) as int - '0' as int == d,
        is_digit(digit_char(d)),
{
    assert('0' as int == 48 && '1' as int == 49 && '2' as int == 50 && '3' as int == 51 && '4' as int == 52);
    assert('5' as int == 53 && '6' as int == 54 && '7' as int == 55 && '8' as int == 56 && '9' as int == 57);
}

/// The value of the decimal digits of a number is the number.
proof fn lemma_digits_read_back(n: nat)
    ensures
        digits(n).len() > 0,
        forall|i: int| 0 <= i < digits(n).len() ==> is_digit(#[trigger] digits(n)[i]),
        digits_value(digits(n)) == n,
    decreases n,
{
    if n < 10 {
        lemma_digit_char_value(n as int);
        assert(digits(n).drop_last() =~= Seq::<char>::empty());
        assert(digits_value(Seq::<char>::empty()) == 0);
        assert(digits(n).last() == digit_char(n as int));
    } else {
        lemma_digit_char_value((n % 10) as int);
        lemma_digits_read_back(n / 10);
        let d = digits(n / 10);
        let c = digit_char((n % 10) as int);
        assert(digits(n) == d.push(c));
        assert(d.push(c).drop_last() =~= d);
        assert(d.push(c).last() == c);
        assert(digits_value(d.push(c)) == digits_value(d) * 10 + (c as int - '0' as int));
        assert((n / 10) * 10 + n % 10 == n);
        assert forall|i: int| 0 <= i < digits(n).len() implies is_digit(#[trigger] digits(n)[i]) by {
            if i < d.len() {
                assert(digits(n)[i] == d[i]);
            }
        }
    }
}

/// An id written in decimal, as a token's subject carries it, reads back as
/// the same id (see `decimal_string` and `parse_user_id`).
pub proof fn law_token_subject_reads_back(id: i32)
    ensures
        parsed_i32(decimal(id as int)) == Some(id),
{
    if id < 0 {
        let n = (-id) as nat;
        lemma_digits_read_back(n);
        let s = decimal(id as int);
        assert(s == seq!['-'] + digits(n));
        assert(s[0] == '-');
        assert(unsigned_part(s) =~= digits(n));
    } else {
        let n = id as nat;
        lemma_digits_read_back(n);
        assert(is_digit(digits(n)[0]));
        assert(unsigned_part(decimal(id as int)) == digits(n));
    }
}

/// A token issued for a user reads back as that user: decoded under the
/// same secret (clock aside), its claims carry the user's id in decimal,
/// which parses back to the id (see `create_token`, `decode_token` and
/// `parse_user_id`). Said of expiries from 1970 on.
pub proof fn law_issued_token_names_its_user(t: Seq<char>, id: i32, now: DateTime, duration: int, secret: Seq<char>)
    requires
        token_names(t, decimal(id as int), now, duration, secret),
        days_later(now, duration) matches Some(exp) && unix_seconds_of(whole_seconds(exp)) >= 0,
    ensures
        jwt_claims(t, secret) matches Some(c) && c.0 == "user"@ && parsed_i32(c.1) == Some(id),
{
    law_token_subject_reads_back(id);
}

/// The page `page` (from 1) of `per_page` rows holds the rows from
/// `(page - 1) * per_page` on, at most `per_page` of them, and reports the
/// number of all rows; it is empty (and reports 0) exactly when it comes
/// after the last page. So the pages, in order, hold every row once.
pub proof fn law_pages_hold_every_row_once<T>(s: Seq<T>, page: i64, per_page: i64)
    requires
        per_page > 0,
        page >= 1,
        s.len() <= i64::MAX,
        (page - 1) * per_page <= i64::MAX,
    ensures
        page <= page_count(s.len() as int, per_page as int) ==> page_of(s, page, per_page) == Ok::<
            (Seq<T>, int),
            DbError,
        >(
            (
                s.subrange(
                    (page - 1) * per_page,
                    if page * per_page <= s.len() {
                        page * per_page
                    } else {
                        s.len() as int
                    },
                ),
                s.len() as int,
            ),
        ),
        page > page_count(s.len() as int, per_page as int) ==> page_of(s, page, per_page) == Ok::<
            (Seq<T>, int),
            DbError,
        >((Seq::empty(), 0)),
{
    let q = (page - 1) as int;
    let d = per_page as int;
    let n = s.len() as int;
    assert(q * d >= 0) by (nonlinear_arith)
        requires
            q >= 0,
            d > 0,
    ;
    assert(q * d + d == page * per_page) by (nonlinear_arith)
        requires
            q == page - 1,
            d == per_page,
    ;
    if q * d < n {
        assert(q + 1 <= (n + d - 1) / d) by (nonlinear_arith)
            requires
                q * d < n,
                d > 0,
                q >= 0,
        {
            assert((q + 1) * d <= n + d - 1);
            vstd::arithmetic::div_mod::lemma_div_is_ordered((q + 1) * d, n + d - 1, d);
            vstd::arithmetic::div_mod::lemma_div_multiples_vanish(q + 1, d);
        }
    } else {
        assert(q + 1 > (n + d - 1) / d) by (nonlinear_arith)
            requires
                q * d >= n,
                d > 0,
                q >= 0,
                n >= 0,
        {
            assert(n + d - 1 < (q + 1) * d);
            vstd::arithmetic::div_mod::lemma_div_is_ordered(n + d - 1, (q + 1) * d - 1, d);
            assert(((q + 1) * d - 1) / d == q) by {
                vstd::arithmetic::div_mod::lemma_fundamental_div_mod_converse((q + 1) * d - 1, d, q, d - 1);
            }
        }
    }
}

/// Two accounts with the same e-mail.
pub open spec fn same_email() -> spec_fn(User, User) -> bool {
    |a: User, b: User| a.email@ == b.email@
}

/// Registering keeps e-mails unique: an account is only stored under an
/// e-mail no account has (see `insert_user`, which `add_user_db` and
/// `add_invited_user_db` use), so no two accounts ever share one.
pub proof fn law_registration_keeps_emails_unique(v: DbView, u: User)
    requires
        no_two(v.users, same_email()),
        !email_taken(v, u.email@),
    ensures
        no_two(view_push_users(v, u).users, same_email()),
{
    lemma_first_match_some(v.users, email_is(u.email@));
    lemma_push_keeps_no_two(v.users, u, same_email(), email_is(u.email@));
}

/// A user who leaves a space, or is removed from it, is no longer a member
/// of it (see `leave_space_db` and `remove_user_from_space_db`, which delete
/// the membership row found for the user), as long as no user was a member
/// of a space twice.
pub proof fn law_left_user_is_no_longer_member(v: DbView, space_id: i32, user_id: i32)
    requires
        no_two(v.spaces_users, same_space_member()),
        member_row(v, space_id, user_id) is Some,
    ensures
        member_row(
            DbView {
                spaces_users: delete_where(v.spaces_users, membership_id_is(member_row(v, space_id, user_id)->0.id)),
                ..v
            },
            space_id,
            user_id,
        ) is None,
{
    broadcast use vstd::seq_lib::group_filter_ensures;

    let m = member_row(v, space_id, user_id)->0;
    let p = member_of(space_id, user_id);
    let keep = |x: SpaceUser| !membership_id_is(m.id)(x);
    let rest = v.spaces_users.filter(keep);
    lemma_first_match_some(v.spaces_users, p);
    let k = choose|k: int| 0 <= k < v.spaces_users.len() && v.spaces_users[k] == m;
    assert forall|i: int| 0 <= i < rest.len() implies !p(#[trigger] rest[i]) by {
        assert(keep(rest[i]));
        v.spaces_users.lemma_filter_contains_rev(keep, rest[i]);
        let j = choose|j: int| 0 <= j < v.spaces_users.len() && v.spaces_users[j] == rest[i];
        if p(rest[i]) {
            if j < k {
                assert(same_space_member()(v.spaces_users[j], v.spaces_users[k]));
            } else if k < j {
                assert(same_space_member()(v.spaces_users[k], v.spaces_users[j]));
            }
        }
    }
    lemma_first_match_none(rest, p);
}

/// After adding users to a channel, every listed user is a member of it.
proof fn lemma_channel_add_members(v: DbView, channel_id: i32, space_id: i32, ids: Seq<i32>)
    ensures
        forall|k: int| 0 <= k < ids.len() ==> first_match(
            add_to_channel_fold(v, channel_id, space_id, ids).channel_users,
            in_channel(channel_id, #[trigger] ids[k]),
        ) is Some,
    decreases ids.len(),
{
    if ids.len() > 0 {
        let rest = ids.drop_last();
        lemma_channel_add_members(v, channel_id, space_id, rest);
        let v1 = add_to_channel_fold(v, channel_id, space_id, rest);
        let a = ids.last();
        let w = add_to_channel_fold(v, channel_id, space_id, ids);
        if first_match(v1.channel_users, in_channel(channel_id, a)) is None {
            let x = ChannelUser {
                id: v1.ids.channel_users,
                space_channel_id: channel_id,
                space_id,
                user_id: a,
                channel_admin: false,
                viewed: 0,
            };
            assert forall|k: int| 0 <= k < ids.len() implies first_match(
                w.channel_users,
                in_channel(channel_id, #[trigger] ids[k]),
            ) is Some by {
                lemma_first_match_push(v1.channel_users, x, in_channel(channel_id, ids[k]));
                if k < rest.len() {
                    assert(rest[k] == ids[k]);
                }
            }
        } else {
            assert forall|k: int| 0 <= k < ids.len() implies first_match(
                w.channel_users,
                in_channel(channel_id, #[trigger] ids[k]),
            ) is Some by {
                if k < rest.len() {
                    assert(rest[k] == ids[k]);
                }
            }
        }
    }
}

/// Adding users who are all members already changes nothing.
proof fn lemma_channel_add_members_fixed(w: DbView, channel_id: i32, space_id: i32, ids: Seq<i32>)
    requires
        forall|k: int| 0 <= k < ids.len() ==> first_match(w.channel_users, in_channel(channel_id, #[trigger] ids[k])) is Some,
    ensures
        add_to_channel_fold(w, channel_id, space_id, ids) == w,
    decreases ids.len(),
{
    if ids.len() > 0 {
        let rest = ids.drop_last();
        assert forall|k: int| 0 <= k < rest.len() implies first_match(w.channel_users, in_channel(channel_id, #[trigger] rest[k])) is Some by {
            assert(rest[k] == ids[k]);
        }
        lemma_channel_add_members_fixed(w, channel_id, space_id, rest);
        assert(first_match(w.channel_users, in_channel(channel_id, ids[ids.len() - 1])) is Some);
    }
}

/// Adding the same users to a channel twice changes nothing more than once.
pub proof fn law_channel_add_twice_is_once(v: DbView, channel_id: i32, space_id: i32, ids: Seq<i32>)
    ensures
        add_to_channel_fold(add_to_channel_fold(v, channel_id, space_id, ids), channel_id, space_id, ids)
            == add_to_channel_fold(v, channel_id, space_id, ids),
{
    lemma_channel_add_members(v, channel_id, space_id, ids);
    lemma_channel_add_members_fixed(add_to_channel_fold(v, channel_id, space_id, ids), channel_id, space_id, ids);
}

/// Invitations leave the accounts as they are.
proof fn lemma_invite_keeps_users(v: DbView, space_id: i32, general_id: i32, emails: Seq<String>)
    ensures
        invite_fold(v, space_id, general_id, emails).0.users == v.users,
    decreases emails.len(),
{
    if emails.len() > 0 {
        lemma_invite_keeps_users(v, space_id, general_id, emails.drop_last());
        lemma_invite_last_step(v, space_id, general_id, emails);
    }
}

/// Inviting addresses whose registered users are all members already
/// changes nothing.
proof fn lemma_invite_fixed(w: DbView, space_id: i32, general_id: i32, emails: Seq<String>)
    requires
        forall|k: int| 0 <= k < emails.len() ==> invited_member_in(w, #[trigger] emails[k], w, space_id),
    ensures
        invite_fold(w, space_id, general_id, emails).0 == w,
    decreases emails.len(),
{
    if emails.len() > 0 {
        let rest = emails.drop_last();
        assert forall|k: int| 0 <= k < rest.len() implies invited_member_in(w, #[trigger] rest[k], w, space_id) by {
            assert(rest[k] == emails[k]);
        }
        lemma_invite_fixed(w, space_id, general_id, rest);
        lemma_invite_last_step(w, space_id, general_id, emails);
        assert(invited_member_in(w, emails[emails.len() - 1], w, space_id));
    }
}

/// Inviting the same addresses to a space twice changes the store no more
/// than once (the second round may mail unknown addresses again).
pub proof fn law_invite_twice_is_once(v: DbView, space_id: i32, general_id: i32, emails: Seq<String>)
    ensures
        invite_fold(invite_fold(v, space_id, general_id, emails).0, space_id, general_id, emails).0
            == invite_fold(v, space_id, general_id, emails).0,
{
    let w = invite_fold(v, space_id, general_id, emails).0;
    lemma_invite_keeps_users(v, space_id, general_id, emails);
    assert forall|k: int| 0 <= k < emails.len() implies invited_member_in(w, #[trigger] emails[k], w, space_id) by {
        law_invite_makes_members(v, space_id, general_id, emails, k);
        lemma_invite_keeps_users(v, space_id, general_id, emails.take(k));
        let vk = invite_fold(v, space_id, general_id, emails.take(k)).0;
        assert(vk.users == w.users);
        assert(user_by_email(vk, emails[k]@) == user_by_email(w, emails[k]@));
    }
    lemma_invite_fixed(w, space_id, general_id, emails);
}

/// Adding users to a channel touches only the channel memberships (and
/// their counter), and a membership row found before is still the first
/// match after.
proof fn lemma_channel_add_frame(v: DbView, channel_id: i32, space_id: i32, ids: Seq<i32>, p: spec_fn(ChannelUser) -> bool)
    ensures
        ({
            let w = add_to_channel_fold(v, channel_id, space_id, ids);
            &&& w.users == v.users
            &&& w.spaces == v.spaces
            &&& w.spaces_channel == v.spaces_channel
            &&& w.spaces_users == v.spaces_users
            &&& first_match(v.channel_users, p) is Some ==> first_match(w.channel_users, p) == first_match(v.channel_users, p)
        }),
    decreases ids.len(),
{
    if ids.len() > 0 {
        lemma_channel_add_frame(v, channel_id, space_id, ids.drop_last(), p);
        let v1 = add_to_channel_fold(v, channel_id, space_id, ids.drop_last());
        let x = ChannelUser {
            id: v1.ids.channel_users,
            space_channel_id: channel_id,
            space_id,
            user_id: ids.last(),
            channel_admin: false,
            viewed: 0,
        };
        lemma_first_match_push(v1.channel_users, x, p);
    }
}

/// Sending the same request to add users to a channel a second time finds
/// the same requester, space, channel and channel membership, and adds
/// nothing: by the contract of `add_user_to_channel_db` the second call
/// leaves the store as the first left it and gives the same answer.
pub proof fn law_second_channel_add_changes_nothing(v: DbView, uid: i32, path: ChannelPathInfo, ids: Seq<i32>)
    requires
        channel_ctx(v, uid, path) is Ok,
    ensures
        ({
            let (u, s, c, cu) = channel_ctx(v, uid, path)->Ok_0;
            let w = add_to_channel_fold(v, c.id, s.id, ids);
            &&& channel_ctx(w, uid, path) == channel_ctx(v, uid, path)
            &&& add_to_channel_fold(w, c.id, s.id, ids) == w
        }),
{
    let (u, s, c, cu) = channel_ctx(v, uid, path)->Ok_0;
    let p = channel_member_of(s.id, c.id, u.id);
    lemma_channel_add_frame(v, c.id, s.id, ids, p);
    law_channel_add_twice_is_once(v, c.id, s.id, ids);
}

/// Invitations touch only the space and channel memberships (and their
/// counters), and a space membership found before is still the first match
/// after.
proof fn lemma_invite_frame(v: DbView, space_id: i32, general_id: i32, emails: Seq<String>, p: spec_fn(SpaceUser) -> bool)
    ensures
        ({
            let w = invite_fold(v, space_id, general_id, emails).0;
            &&& w.users == v.users
            &&& w.spaces == v.spaces
            &&& w.spaces_channel == v.spaces_channel
            &&& first_match(v.spaces_users, p) is Some ==> first_match(w.spaces_users, p) == first_match(v.spaces_users, p)
        }),
    decreases emails.len(),
{
    if emails.len() > 0 {
        lemma_invite_frame(v, space_id, general_id, emails.drop_last(), p);
        lemma_invite_last_step(v, space_id, general_id, emails);
        let v1 = invite_fold(v, space_id, general_id, emails.drop_last()).0;
        if let Ok(u) = user_by_email(v1, emails.last()@) {
            if member_row(v1, space_id, u.id) is None {
                let x = SpaceUser { id: v1.ids.spaces_users, user_id: u.id, space_id, admin_status: false };
                lemma_first_match_push(v1.spaces_users, x, p);
            }
        }
    }
}

/// Sending the same invitations to a space a second time finds the same
/// requester, space, membership and general channel, and changes no
/// membership: by the contract of `invite_user_db` the second call leaves
/// the store as the first left it (only unknown addresses are mailed
/// again).
pub proof fn law_second_invite_changes_nothing(v: DbView, uid: i32, space_name: Seq<char>, emails: Seq<String>)
    requires
        member_ctx(v, uid, space_name) is Ok,
        channel_by_name(v, member_ctx(v, uid, space_name)->Ok_0.1.id, "General"@) is Ok,
    ensures
        ({
            let (u, s, m) = member_ctx(v, uid, space_name)->Ok_0;
            let g = channel_by_name(v, s.id, "General"@)->Ok_0;
            let w = invite_fold(v, s.id, g.id, emails).0;
            &&& member_ctx(w, uid, space_name) == member_ctx(v, uid, space_name)
            &&& channel_by_name(w, s.id, "General"@) == channel_by_name(v, s.id, "General"@)
            &&& invite_fold(w, s.id, g.id, emails).0 == w
        }),
{
    let (u, s, m) = member_ctx(v, uid, space_name)->Ok_0;
    let g = channel_by_name(v, s.id, "General"@)->Ok_0;
    lemma_invite_frame(v, s.id, g.id, emails, member_of(s.id, u.id));
    law_invite_twice_is_once(v, s.id, g.id, emails);
}

/// The chat list of a user in a space (see `get_chat_list_db`) holds
/// exactly the entries of the table that name the user as the other side in
/// that space: every listed entry is a row of the table with `other == uid`
/// and `space_id == space_id`, every such row is listed, and
/// the most recently updated come first. The users answered are the authors
/// of the listed entries, in the list's order.
pub proof fn law_chat_list_is_the_spaces_own(v: DbView, uid: i32, space_id: i32)
    ensures
        ({
            let l = chat_list_of(v, uid, space_id);
            &&& forall|i: int| 0 <= i < l.len() ==> (#[trigger] l[i]).other == uid && l[i].space_id == space_id
                && v.unread_user_chat.contains(l[i])
            &&& forall|j: int| 0 <= j < v.unread_user_chat.len() && (#[trigger] v.unread_user_chat[j]).other == uid
                && v.unread_user_chat[j].space_id == space_id ==> l.contains(v.unread_user_chat[j])
            &&& forall|i: int, j: int| 0 <= i < j < l.len() ==> dt_le((#[trigger] l[j]).updated_at, (#[trigger] l[i]).updated_at)
            &&& partners_exist(v, l) ==> forall|i: int| 0 <= i < l.len() ==> (#[trigger] partners(v, l)[i]).id
                == l[i].user_id
        }),
{
    lemma_dt_le_order();
    assert(total_preorder(entry_updated_le()));
    lemma_sort_desc_sorted(v.unread_user_chat.filter(listed_for(uid, space_id)), entry_updated_le());
    let t = v.unread_user_chat;
    let f = t.filter(listed_for(uid, space_id));
    let l = chat_list_of(v, uid, space_id);
    lemma_filter_exact(t, listed_for(uid, space_id));
    lemma_sort_desc_multiset(f, entry_updated_le());
    l.to_multiset_ensures();
    f.to_multiset_ensures();
    assert forall|i: int| 0 <= i < l.len() implies (#[trigger] l[i]).other == uid && l[i].space_id == space_id
        && t.contains(l[i]) by {
        assert(l.contains(l[i]));
        assert(l.to_multiset().count(l[i]) > 0);
        assert(f.contains(l[i]));
        let k = choose|k: int| 0 <= k < f.len() && f[k] == l[i];
        assert(listed_for(uid, space_id)(f[k]) && t.contains(f[k]));
    }
    assert forall|j: int| 0 <= j < t.len() && (#[trigger] t[j]).other == uid && t[j].space_id == space_id implies l.contains(t[j]) by {
        assert(listed_for(uid, space_id)(t[j]));
        assert(f.contains(t[j]));
        assert(f.to_multiset().count(t[j]) > 0);
    }
    if partners_exist(v, l) {
        assert forall|i: int| 0 <= i < l.len() implies (#[trigger] partners(v, l)[i]).id == l[i].user_id by {
            assert(user_row(v, l[i].user_id) is Some);
            lemma_first_match_some(v.users, user_id_is(l[i].user_id));
        }
    }
}

/// An admin's update of a space (see `update_space_db`) gives the space
/// with that id the new name and description and keeps its id, logo and
/// creation time; every other space stays as it was, and no space is added
/// or removed.
pub proof fn law_space_update_sets_name_and_description(spaces: Seq<Space>, id: i32, name: String, desc: String)
    ensures
        ({
            let w = update_where(spaces, space_with_id(id), with_name_desc(name, desc));
            &&& w.len() == spaces.len()
            &&& forall|i: int| 0 <= i < spaces.len() ==> if spaces[i].id == id {
                &&& (#[trigger] w[i]).spaces_name == name
                &&& w[i].spaces_desc == desc
                &&& w[i].id == id
                &&& w[i].spaces_img == spaces[i].spaces_img
                &&& w[i].created_at == spaces[i].created_at
            } else {
                w[i] == spaces[i]
            }
        }),
{
}

/// An edit of an event (see `edit_event_db`) gives the event with the
/// path's id the new name and description and keeps its id, date, space and
/// reminder flag; every other event stays as it was, and none is added or
/// removed.
pub proof fn law_event_edit_sets_name_and_description(events: Seq<Event>, id: i32, name: String, desc: String)
    ensures
        ({
            let w = update_where(events, event_id_is(id), with_event_text(name, desc));
            &&& w.len() == events.len()
            &&& forall|i: int| 0 <= i < events.len() ==> if events[i].id == id {
                &&& (#[trigger] w[i]).event_name == name
                &&& w[i].event_description == desc
                &&& w[i].id == id
                &&& w[i].event_date == events[i].event_date
                &&& w[i].space_id == events[i].space_id
                &&& w[i].reminded == events[i].reminded
            } else {
                w[i] == events[i]
            }
        }),
{
}

/// The channels listed for a space (see `get_channels_in_space_db` and
/// `channels_of_space`) are exactly the space's own: each is a row of the
/// table whose `space_id` is the space's id, and every such row is listed.
pub proof fn law_space_channels_are_its_own(v: DbView, space_id: i32)
    ensures
        ({
            let r = v.spaces_channel.filter(channel_in_space(space_id));
            &&& forall|i: int| 0 <= i < r.len() ==> (#[trigger] r[i]).space_id == space_id && v.spaces_channel.contains(r[i])
            &&& forall|j: int| 0 <= j < v.spaces_channel.len() && (#[trigger] v.spaces_channel[j]).space_id == space_id
                ==> r.contains(v.spaces_channel[j])
        }),
{
    lemma_filter_exact(v.spaces_channel, channel_in_space(space_id));
}

/// The events listed for a space (see `get_events_db`) are exactly the
/// space's own: each is an event whose `space_id` is the space's id, and
/// every such event is listed.
pub proof fn law_listed_events_of_space(rows: Seq<Event>, space_id: i32)
    ensures
        forall|i: int| 0 <= i < rows.filter(events_of_space(space_id)).len() ==> (#[trigger] rows.filter(events_of_space(space_id))[i]).space_id == space_id && rows.contains(rows.filter(events_of_space(space_id))[i]),
        forall|j: int| 0 <= j < rows.len() && (#[trigger] rows[j]).space_id == space_id ==> rows.filter(events_of_space(space_id)).contains(rows[j]),
{
    lemma_filter_exact(rows, events_of_space(space_id));
}

/// The files listed for a folder (see `get_files_db`) are exactly the
/// folder's own: each is a file whose `asset_id` is the folder's id, and
/// every such file is listed.
pub proof fn law_listed_contents_of(rows: Seq<AssetContent>, asset_id: i32)
    ensures
        forall|i: int| 0 <= i < rows.filter(contents_of(asset_id)).len() ==> (#[trigger] rows.filter(contents_of(asset_id))[i]).asset_id == asset_id && rows.contains(rows.filter(contents_of(asset_id))[i]),
        forall|j: int| 0 <= j < rows.len() && (#[trigger] rows[j]).asset_id == asset_id ==> rows.filter(contents_of(asset_id)).contains(rows[j]),
{
    lemma_filter_exact(rows, contents_of(asset_id));
}

/// The messages listed for a channel (see `get_all_message_db` of channel
/// chats) are exactly the channel's own: each has the channel's id, and
/// every message with it is listed.
pub proof fn law_listed_chats_of_channel(rows: Seq<ChannelChat>, channel_id: i32)
    ensures
        forall|i: int| 0 <= i < rows.filter(chats_of_channel(channel_id)).len() ==> (#[trigger] rows.filter(chats_of_channel(channel_id))[i]).space_channel_id == channel_id && rows.contains(rows.filter(chats_of_channel(channel_id))[i]),
        forall|j: int| 0 <= j < rows.len() && (#[trigger] rows[j]).space_channel_id == channel_id ==> rows.filter(chats_of_channel(channel_id)).contains(rows[j]),
{
    lemma_filter_exact(rows, chats_of_channel(channel_id));
}

/// The channel memberships listed for a user in a space are exactly the
/// user's memberships in that space: each names the user and the space, and
/// every such membership is listed.
pub proof fn law_listed_user_channels_in_space(rows: Seq<ChannelUser>, user_id: i32, space_id: i32)
    ensures
        forall|i: int| 0 <= i < rows.filter(user_channels_in_space(user_id, space_id)).len() ==> (#[trigger] rows.filter(user_channels_in_space(user_id, space_id))[i]).user_id == user_id && rows.filter(user_channels_in_space(user_id, space_id))[i].space_id == space_id && rows.contains(rows.filter(user_channels_in_space(user_id, space_id))[i]),
        forall|j: int| 0 <= j < rows.len() && (#[trigger] rows[j]).user_id == user_id && rows[j].space_id == space_id ==> rows.filter(user_channels_in_space(user_id, space_id)).contains(rows[j]),
{
    lemma_filter_exact(rows, user_channels_in_space(user_id, space_id));
}

/// The members listed for a channel are exactly the channel's memberships:
/// each names the channel, and every membership of the channel is listed.
pub proof fn law_listed_members_of_channel(rows: Seq<ChannelUser>, channel_id: i32)
    ensures
        forall|i: int| 0 <= i < rows.filter(members_of_channel(channel_id)).len() ==> (#[trigger] rows.filter(members_of_channel(channel_id))[i]).space_channel_id == channel_id && rows.contains(rows.filter(members_of_channel(channel_id))[i]),
        forall|j: int| 0 <= j < rows.len() && (#[trigger] rows[j]).space_channel_id == channel_id ==> rows.filter(members_of_channel(channel_id)).contains(rows[j]),
{
    lemma_filter_exact(rows, members_of_channel(channel_id));
}

/// The projects listed for a space (see `get_all_projects_db`) are exactly the
/// space's own: each has the space's id, and every such project is listed.
pub proof fn law_listed_projects_of_space(rows: Seq<Project>, space_id: i32)
    ensures
        forall|i: int| 0 <= i < rows.filter(projects_of_space(space_id)).len() ==> (#[trigger] rows.filter(projects_of_space(space_id))[i]).space_id == space_id && rows.contains(rows.filter(projects_of_space(space_id))[i]),
        forall|j: int| 0 <= j < rows.len() && (#[trigger] rows[j]).space_id == space_id ==> rows.filter(projects_of_space(space_id)).contains(rows[j]),
{
    lemma_filter_exact(rows, projects_of_space(space_id));
}

/// The members listed for a space (see `get_users_in_space_db`) are exactly
/// the space's memberships: each names the space, and every membership of the
/// space is listed.
pub proof fn law_listed_members_of_space(rows: Seq<SpaceUser>, space_id: i32)
    ensures
        forall|i: int| 0 <= i < rows.filter(members_of_space(space_id)).len() ==> (#[trigger] rows.filter(members_of_space(space_id))[i]).space_id == space_id && rows.contains(rows.filter(members_of_space(space_id))[i]),
        forall|j: int| 0 <= j < rows.len() && (#[trigger] rows[j]).space_id == space_id ==> rows.filter(members_of_space(space_id)).contains(rows[j]),
{
    lemma_filter_exact(rows, members_of_space(space_id));
}

/// The spaces listed for a user (see `get_user_space_db`) come from exactly
/// the user's memberships: each names the user, and every membership of the
/// user is listed.
pub proof fn law_listed_spaces_of_user(rows: Seq<SpaceUser>, user_id: i32)
    ensures
        forall|i: int| 0 <= i < rows.filter(spaces_of_user(user_id)).len() ==> (#[trigger] rows.filter(spaces_of_user(user_id))[i]).user_id == user_id && rows.contains(rows.filter(spaces_of_user(user_id))[i]),
        forall|j: int| 0 <= j < rows.len() && (#[trigger] rows[j]).user_id == user_id ==> rows.filter(spaces_of_user(user_id)).contains(rows[j]),
{
    lemma_filter_exact(rows, spaces_of_user(user_id));
}

/// The replies listed for a message (see `get_chat_thread_db`) are exactly
/// the replies to it: each names the message, and every reply to it is
/// listed.
pub proof fn law_listed_replies_to(rows: Seq<ChatThread>, chat_id: i32)
    ensures
        forall|i: int| 0 <= i < rows.filter(replies_to(chat_id)).len() ==> (#[trigger] rows.filter(replies_to(chat_id))[i]).channel_chat_id == chat_id && rows.contains(rows.filter(replies_to(chat_id))[i]),
        forall|j: int| 0 <= j < rows.len() && (#[trigger] rows[j]).channel_chat_id == chat_id ==> rows.filter(replies_to(chat_id)).contains(rows[j]),
{
    lemma_filter_exact(rows, replies_to(chat_id));
}

/// The members listed for a mail folder are exactly the folder's entries:
/// each names the folder, and every entry of the folder is listed.
pub proof fn law_listed_in_folder(rows: Seq<UserMail>, list_id: i32)
    ensures
        forall|i: int| 0 <= i < rows.filter(in_folder(list_id)).len() ==> (#[trigger] rows.filter(in_folder(list_id))[i]).mail_list_id == list_id && rows.contains(rows.filter(in_folder(list_id))[i]),
        forall|j: int| 0 <= j < rows.len() && (#[trigger] rows[j]).mail_list_id == list_id ==> rows.filter(in_folder(list_id)).contains(rows[j]),
{
    lemma_filter_exact(rows, in_folder(list_id));
}

/// The tasks taken for a project are exactly the project's own: each names
/// the project, and every task of the project is taken.
pub proof fn law_listed_tasks_of_project(rows: Seq<Task>, project_id: i32)
    ensures
        forall|i: int| 0 <= i < rows.filter(tasks_of_project(project_id)).len() ==> (#[trigger] rows.filter(tasks_of_project(project_id))[i]).project_id == project_id && rows.contains(rows.filter(tasks_of_project(project_id))[i]),
        forall|j: int| 0 <= j < rows.len() && (#[trigger] rows[j]).project_id == project_id ==> rows.filter(tasks_of_project(project_id)).contains(rows[j]),
{
    lemma_filter_exact(rows, tasks_of_project(project_id));
}

/// The direct messages taken for a conversation (see `get_all_message_db` of
/// direct messages) are exactly those the sender sent to the other side (or
/// to itself): every such message is taken, and no other.
pub proof fn law_listed_sent_between(rows: Seq<UserChat>, sender: i32, other: i32)
    ensures
        forall|i: int| 0 <= i < rows.filter(sent_between(sender, other)).len() ==> (#[trigger] rows.filter(sent_between(sender, other))[i]).user_id == sender && (rows.filter(sent_between(sender, other))[i].reciever == sender || rows.filter(sent_between(sender, other))[i].reciever == other) && rows.contains(rows.filter(sent_between(sender, other))[i]),
        forall|j: int| 0 <= j < rows.len() && (#[trigger] rows[j]).user_id == sender && (rows[j].reciever == sender || rows[j].reciever == other) ==> rows.filter(sent_between(sender, other)).contains(rows[j]),
{
    lemma_filter_exact(rows, sent_between(sender, other));
}

/// The events the reminder job takes on a day (see `run_job`) are exactly
/// those not yet reminded whose date falls on that day: each is such an
/// event, and every such event is taken.
pub proof fn law_listed_due(rows: Seq<Event>, today: DateTime)
    ensures
        forall|i: int| 0 <= i < rows.filter(due(today)).len() ==> !(#[trigger] rows.filter(due(today))[i]).reminded && rows.filter(due(today))[i].event_date.year == today.year && rows.filter(due(today))[i].event_date.month == today.month && rows.filter(due(today))[i].event_date.day == today.day && rows.contains(rows.filter(due(today))[i]),
        forall|j: int| 0 <= j < rows.len() && !(#[trigger] rows[j]).reminded && rows[j].event_date.year == today.year && rows[j].event_date.month == today.month && rows[j].event_date.day == today.day ==> rows.filter(due(today)).contains(rows[j]),
{
    lemma_filter_exact(rows, due(today));
}

/// An edit of a channel message (see `update_channel_message`) sets the text
/// of the message with that id and nothing else.
pub proof fn law_update_with_chat_text(rows: Seq<ChannelChat>, id: i32, text: String)
    ensures
        update_where(rows, chat_id_is(id), with_chat_text(text)).len() == rows.len(),
        forall|i: int| 0 <= i < rows.len() ==> (#[trigger] update_where(rows, chat_id_is(id), with_chat_text(text))[i]) == if rows[i].id == id {
            ChannelChat { chat: text, ..rows[i] }
        } else {
            rows[i]
        },
{
}

/// A change of channel admin status (see `change_user_admin_status_db`) sets
/// the flag of the user's membership in that channel and nothing else.
pub proof fn law_update_with_channel_admin(rows: Seq<ChannelUser>, channel_id: i32, user_id: i32, admin: bool)
    ensures
        update_where(rows, in_channel(channel_id, user_id), with_channel_admin(admin)).len() == rows.len(),
        forall|i: int| 0 <= i < rows.len() ==> (#[trigger] update_where(rows, in_channel(channel_id, user_id), with_channel_admin(admin))[i]) == if rows[i].space_channel_id == channel_id && rows[i].user_id == user_id {
            ChannelUser { channel_admin: admin, ..rows[i] }
        } else {
            rows[i]
        },
{
}

/// An edit of a thread reply (see `update_thread_message`) sets the text of
/// the reply with that id and nothing else.
pub proof fn law_update_with_reply_text(rows: Seq<ChatThread>, id: i32, text: String)
    ensures
        update_where(rows, reply_id_is(id), with_reply_text(text)).len() == rows.len(),
        forall|i: int| 0 <= i < rows.len() ==> (#[trigger] update_where(rows, reply_id_is(id), with_reply_text(text))[i]) == if rows[i].id == id {
            ChatThread { chat: text, ..rows[i] }
        } else {
            rows[i]
        },
{
}

/// A rename of a project sets the name of the project with that id and
/// nothing else.
pub proof fn law_update_with_project_name(rows: Seq<Project>, id: i32, name: String)
    ensures
        update_where(rows, project_id_is(id), with_project_name(name)).len() == rows.len(),
        forall|i: int| 0 <= i < rows.len() ==> (#[trigger] update_where(rows, project_id_is(id), with_project_name(name))[i]) == if rows[i].id == id {
            Project { project_name: name, ..rows[i] }
        } else {
            rows[i]
        },
{
}

/// A new logo (see `finish_logo_upload`) is set on the space with that id and
/// nothing else changes.
pub proof fn law_update_with_logo(rows: Seq<Space>, id: i32, link: String)
    ensures
        update_where(rows, space_with_id(id), with_logo(link)).len() == rows.len(),
        forall|i: int| 0 <= i < rows.len() ==> (#[trigger] update_where(rows, space_with_id(id), with_logo(link))[i]) == if rows[i].id == id {
            Space { spaces_img: link, ..rows[i] }
        } else {
            rows[i]
        },
{
}

/// A change of space privilege (see `change_user_priviledge_status_db`) sets
/// the admin flag of the membership with that id and nothing else.
pub proof fn law_update_with_admin(rows: Seq<SpaceUser>, id: i32, admin: bool)
    ensures
        update_where(rows, membership_id_is(id), with_admin(admin)).len() == rows.len(),
        forall|i: int| 0 <= i < rows.len() ==> (#[trigger] update_where(rows, membership_id_is(id), with_admin(admin))[i]) == if rows[i].id == id {
            SpaceUser { admin_status: admin, ..rows[i] }
        } else {
            rows[i]
        },
{
}

/// A status change of a task sets the status of the task with that id and
/// nothing else.
pub proof fn law_update_with_task_status(rows: Seq<Task>, id: i32, status: String)
    ensures
        update_where(rows, task_id_is(id), with_task_status(status)).len() == rows.len(),
        forall|i: int| 0 <= i < rows.len() ==> (#[trigger] update_where(rows, task_id_is(id), with_task_status(status))[i]) == if rows[i].id == id {
            Task { task_status: status, ..rows[i] }
        } else {
            rows[i]
        },
{
}

/// An edit of a task sets the name and description of the task with that id
/// and nothing else.
pub proof fn law_update_with_task_text(rows: Seq<Task>, id: i32, name: String, desc: String)
    ensures
        update_where(rows, task_id_is(id), with_task_text(name, desc)).len() == rows.len(),
        forall|i: int| 0 <= i < rows.len() ==> (#[trigger] update_where(rows, task_id_is(id), with_task_text(name, desc))[i]) == if rows[i].id == id {
            Task { task_name: name, task_description: desc, ..rows[i] }
        } else {
            rows[i]
        },
{
}

/// An edit of a direct message (see `update_user_message`) sets the text of
/// the message with that id and nothing else.
pub proof fn law_update_with_message_text(rows: Seq<UserChat>, id: i32, text: String)
    ensures
        update_where(rows, message_id_is(id), with_message_text(text)).len() == rows.len(),
        forall|i: int| 0 <= i < rows.len() ==> (#[trigger] update_where(rows, message_id_is(id), with_message_text(text))[i]) == if rows[i].id == id {
            UserChat { chat: text, ..rows[i] }
        } else {
            rows[i]
        },
{
}

/// A password change sets the stored hash of the user with that id and
/// nothing else.
pub proof fn law_update_with_password(rows: Seq<User>, id: i32, hash: String)
    ensures
        update_where(rows, user_id_is(id), with_password(hash)).len() == rows.len(),
        forall|i: int| 0 <= i < rows.len() ==> (#[trigger] update_where(rows, user_id_is(id), with_password(hash))[i]) == if rows[i].id == id {
            User { user_password: hash, ..rows[i] }
        } else {
            rows[i]
        },
{
}

/// Verifying an account (see `verify_user_db`) marks the user with that id
/// verified and changes nothing else.
pub proof fn law_update_as_verified(rows: Seq<User>, id: i32)
    ensures
        update_where(rows, user_id_is(id), as_verified()).len() == rows.len(),
        forall|i: int| 0 <= i < rows.len() ==> (#[trigger] update_where(rows, user_id_is(id), as_verified())[i]) == if rows[i].id == id {
            User { verified: true, ..rows[i] }
        } else {
            rows[i]
        },
{
}

/// A new profile image (see `finish_profile_upload`) is set on the user with
/// that id and nothing else changes.
pub proof fn law_update_with_image(rows: Seq<User>, id: i32, link: String)
    ensures
        update_where(rows, user_id_is(id), with_image(link)).len() == rows.len(),
        forall|i: int| 0 <= i < rows.len() ==> (#[trigger] update_where(rows, user_id_is(id), with_image(link))[i]) == if rows[i].id == id {
            User { user_image: link, ..rows[i] }
        } else {
            rows[i]
        },
{
}

/// A rename of a user (see `updat_name_db`) sets the name of the user with
/// that id and nothing else.
pub proof fn law_update_with_username(rows: Seq<User>, id: i32, name: String)
    ensures
        update_where(rows, user_id_is(id), with_username(name)).len() == rows.len(),
        forall|i: int| 0 <= i < rows.len() ==> (#[trigger] update_where(rows, user_id_is(id), with_username(name))[i]) == if rows[i].id == id {
            User { username: name, ..rows[i] }
        } else {
            rows[i]
        },
{
}

/// A rename of a channel (see `edit_channel_name_db`) sets the name of the
/// channel with that id and nothing else.
pub proof fn law_update_with_channel_name(rows: Seq<SpaceChannel>, id: i32, name: String)
    ensures
        update_where(rows, channel_id_is(id), with_channel_name(name)).len() == rows.len(),
        forall|i: int| 0 <= i < rows.len() ==> (#[trigger] update_where(rows, channel_id_is(id), with_channel_name(name))[i]) == if rows[i].id == id {
            SpaceChannel { channel_name: name, ..rows[i] }
        } else {
            rows[i]
        },
{
}

/// A new direct message touches the chat-list entries of the pair: their
/// time becomes the message's and nothing else changes.
pub proof fn law_update_touched(rows: Seq<ChatList>, user_id: i32, other: i32, now: DateTime)
    ensures
        update_where(rows, entry_of(user_id, other), touched(now)).len() == rows.len(),
        forall|i: int| 0 <= i < rows.len() ==> (#[trigger] update_where(rows, entry_of(user_id, other), touched(now))[i]) == if rows[i].user_id == user_id && rows[i].other == other {
            ChatList { updated_at: now, ..rows[i] }
        } else {
            rows[i]
        },
{
}

} // verus!
