//! Row insertion: each table hands out its next id.
use crate::datetime::DateTime;
use crate::model::{
    Asset, AssetContent, ChannelChat, ChannelUser, ChatList, ChatThread, Event, MailList, Project,
    Space, SpaceChannel, SpaceEmail, SpaceUser, Task, User, UserChat, UserMail, UserTask,
};
use crate::store::{Counters, DbView, Store};
use crate::model::Row;
use vstd::prelude::*;

verus! {

/// The view after appending a row to `users`.
pub open spec fn view_push_users(v: DbView, row: User) -> DbView {
    DbView { users: v.users.push(row), ids: Counters { users: (v.ids.users + 1) as i32, ..v.ids }, ..v }
}

impl Store {
    /// Inserts a row into `users` under the next id, and returns it.
    pub fn insert_users(&mut self, username: String, email: String, user_password: String, user_image: String, verified: bool, created_at: DateTime) -> (r: User)
        requires
            old(self).ids.users < i32::MAX,
        ensures
            r == (User { id: old(self).ids.users, username, email, user_password, user_image, verified, created_at }),
            final(self)@ == view_push_users(old(self)@, r),
    {
        let id = self.ids.users;
        let row = User { id, username, email, user_password, user_image, verified, created_at };
        let copy = row.duplicate();
        self.users.push(row);
        self.ids.users = id + 1;
        copy
    }
}

/// The view after appending a row to `spaces`.
pub open spec fn view_push_spaces(v: DbView, row: Space) -> DbView {
    DbView { spaces: v.spaces.push(row), ids: Counters { spaces: (v.ids.spaces + 1) as i32, ..v.ids }, ..v }
}

impl Store {
    /// Inserts a row into `spaces` under the next id, and returns it.
    pub fn insert_spaces(&mut self, spaces_name: String, spaces_desc: String, spaces_img: String, created_at: DateTime) -> (r: Space)
        requires
            old(self).ids.spaces < i32::MAX,
        ensures
            r == (Space { id: old(self).ids.spaces, spaces_name, spaces_desc, spaces_img, created_at }),
            final(self)@ == view_push_spaces(old(self)@, r),
    {
        let id = self.ids.spaces;
        let row = Space { id, spaces_name, spaces_desc, spaces_img, created_at };
        let copy = row.duplicate();
        self.spaces.push(row);
        self.ids.spaces = id + 1;
        copy
    }
}

/// The view after appending a row to `spaces_users`.
pub open spec fn view_push_spaces_users(v: DbView, row: SpaceUser) -> DbView {
    DbView { spaces_users: v.spaces_users.push(row), ids: Counters { spaces_users: (v.ids.spaces_users + 1) as i32, ..v.ids }, ..v }
}

impl Store {
    /// Inserts a row into `spaces_users` under the next id, and returns it.
    pub fn insert_spaces_users(&mut self, user_id: i32, space_id: i32, admin_status: bool) -> (r: SpaceUser)
        requires
            old(self).ids.spaces_users < i32::MAX,
        ensures
            r == (SpaceUser { id: old(self).ids.spaces_users, user_id, space_id, admin_status }),
            final(self)@ == view_push_spaces_users(old(self)@, r),
    {
        let id = self.ids.spaces_users;
        let row = SpaceUser { id, user_id, space_id, admin_status };
        let copy = row.duplicate();
        self.spaces_users.push(row);
        self.ids.spaces_users = id + 1;
        copy
    }
}

/// The view after appending a row to `spaces_channel`.
pub open spec fn view_push_spaces_channel(v: DbView, row: SpaceChannel) -> DbView {
    DbView { spaces_channel: v.spaces_channel.push(row), ids: Counters { spaces_channel: (v.ids.spaces_channel + 1) as i32, ..v.ids }, ..v }
}

impl Store {
    /// Inserts a row into `spaces_channel` under the next id, and returns it.
    pub fn insert_spaces_channel(&mut self, channel_name: String, space_id: i32) -> (r: SpaceChannel)
        requires
            old(self).ids.spaces_channel < i32::MAX,
        ensures
            r == (SpaceChannel { id: old(self).ids.spaces_channel, channel_name, space_id }),
            final(self)@ == view_push_spaces_channel(old(self)@, r),
    {
        let id = self.ids.spaces_channel;
        let row = SpaceChannel { id, channel_name, space_id };
        let copy = row.duplicate();
        self.spaces_channel.push(row);
        self.ids.spaces_channel = id + 1;
        copy
    }
}

/// The view after appending a row to `channel_users`.
pub open spec fn view_push_channel_users(v: DbView, row: ChannelUser) -> DbView {
    DbView { channel_users: v.channel_users.push(row), ids: Counters { channel_users: (v.ids.channel_users + 1) as i32, ..v.ids }, ..v }
}

impl Store {
    /// Inserts a row into `channel_users` under the next id, and returns it.
    pub fn insert_channel_users(&mut self, space_channel_id: i32, space_id: i32, user_id: i32, channel_admin: bool, viewed: i32) -> (r: ChannelUser)
        requires
            old(self).ids.channel_users < i32::MAX,
        ensures
            r == (ChannelUser { id: old(self).ids.channel_users, space_channel_id, space_id, user_id, channel_admin, viewed }),
            final(self)@ == view_push_channel_users(old(self)@, r),
    {
        let id = self.ids.channel_users;
        let row = ChannelUser { id, space_channel_id, space_id, user_id, channel_admin, viewed };
        let copy = row.duplicate();
        self.channel_users.push(row);
        self.ids.channel_users = id + 1;
        copy
    }
}

/// The view after appending a row to `maillists`.
pub open spec fn view_push_maillists(v: DbView, row: MailList) -> DbView {
    DbView { maillists: v.maillists.push(row), ids: Counters { maillists: (v.ids.maillists + 1) as i32, ..v.ids }, ..v }
}

impl Store {
    /// Inserts a row into `maillists` under the next id, and returns it.
    pub fn insert_maillists(&mut self, folder_name: String, space_id: i32) -> (r: MailList)
        requires
            old(self).ids.maillists < i32::MAX,
        ensures
            r == (MailList { id: old(self).ids.maillists, folder_name, space_id }),
            final(self)@ == view_push_maillists(old(self)@, r),
    {
        let id = self.ids.maillists;
        let row = MailList { id, folder_name, space_id };
        let copy = row.duplicate();
        self.maillists.push(row);
        self.ids.maillists = id + 1;
        copy
    }
}

/// The view after appending a row to `usermails`.
pub open spec fn view_push_usermails(v: DbView, row: UserMail) -> DbView {
    DbView { usermails: v.usermails.push(row), ids: Counters { usermails: (v.ids.usermails + 1) as i32, ..v.ids }, ..v }
}

impl Store {
    /// Inserts a row into `usermails` under the next id, and returns it.
    pub fn insert_usermails(&mut self, mail_list_id: i32, user_id: i32) -> (r: UserMail)
        requires
            old(self).ids.usermails < i32::MAX,
        ensures
            r == (UserMail { id: old(self).ids.usermails, mail_list_id, user_id }),
            final(self)@ == view_push_usermails(old(self)@, r),
    {
        let id = self.ids.usermails;
        let row = UserMail { id, mail_list_id, user_id };
        let copy = row.duplicate();
        self.usermails.push(row);
        self.ids.usermails = id + 1;
        copy
    }
}

/// The view after appending a row to `assets`.
pub open spec fn view_push_assets(v: DbView, row: Asset) -> DbView {
    DbView { assets: v.assets.push(row), ids: Counters { assets: (v.ids.assets + 1) as i32, ..v.ids }, ..v }
}

impl Store {
    /// Inserts a row into `assets` under the next id, and returns it.
    pub fn insert_assets(&mut self, folder_name: String, space_id: i32, created_at: DateTime) -> (r: Asset)
        requires
            old(self).ids.assets < i32::MAX,
        ensures
            r == (Asset { id: old(self).ids.assets, folder_name, space_id, created_at }),
            final(self)@ == view_push_assets(old(self)@, r),
    {
        let id = self.ids.assets;
        let row = Asset { id, folder_name, space_id, created_at };
        let copy = row.duplicate();
        self.assets.push(row);
        self.ids.assets = id + 1;
        copy
    }
}

/// The view after appending a row to `asset_contents`.
pub open spec fn view_push_asset_contents(v: DbView, row: AssetContent) -> DbView {
    DbView { asset_contents: v.asset_contents.push(row), ids: Counters { asset_contents: (v.ids.asset_contents + 1) as i32, ..v.ids }, ..v }
}

impl Store {
    /// Inserts a row into `asset_contents` under the next id, and returns it.
    pub fn insert_asset_contents(&mut self, file_content: String, file_type: String, asset_id: i32, created_at: DateTime) -> (r: AssetContent)
        requires
            old(self).ids.asset_contents < i32::MAX,
        ensures
            r == (AssetContent { id: old(self).ids.asset_contents, file_content, file_type, asset_id, created_at }),
            final(self)@ == view_push_asset_contents(old(self)@, r),
    {
        let id = self.ids.asset_contents;
        let row = AssetContent { id, file_content, file_type, asset_id, created_at };
        let copy = row.duplicate();
        self.asset_contents.push(row);
        self.ids.asset_contents = id + 1;
        copy
    }
}

/// The view after appending a row to `events`.
pub open spec fn view_push_events(v: DbView, row: Event) -> DbView {
    DbView { events: v.events.push(row), ids: Counters { events: (v.ids.events + 1) as i32, ..v.ids }, ..v }
}

impl Store {
    /// Inserts a row into `events` under the next id, and returns it.
    pub fn insert_events(&mut self, event_name: String, event_description: String, reminded: bool, event_date: DateTime, space_id: i32) -> (r: Event)
        requires
            old(self).ids.events < i32::MAX,
        ensures
            r == (Event { id: old(self).ids.events, event_name, event_description, reminded, event_date, space_id }),
            final(self)@ == view_push_events(old(self)@, r),
    {
        let id = self.ids.events;
        let row = Event { id, event_name, event_description, reminded, event_date, space_id };
        let copy = row.duplicate();
        self.events.push(row);
        self.ids.events = id + 1;
        copy
    }
}

/// The view after appending a row to `projects`.
pub open spec fn view_push_projects(v: DbView, row: Project) -> DbView {
    DbView { projects: v.projects.push(row), ids: Counters { projects: (v.ids.projects + 1) as i32, ..v.ids }, ..v }
}

impl Store {
    /// Inserts a row into `projects` under the next id, and returns it.
    pub fn insert_projects(&mut self, project_name: String, space_id: i32, created_at: DateTime) -> (r: Project)
        requires
            old(self).ids.projects < i32::MAX,
        ensures
            r == (Project { id: old(self).ids.projects, project_name, space_id, created_at }),
            final(self)@ == view_push_projects(old(self)@, r),
    {
        let id = self.ids.projects;
        let row = Project { id, project_name, space_id, created_at };
        let copy = row.duplicate();
        self.projects.push(row);
        self.ids.projects = id + 1;
        copy
    }
}

/// The view after appending a row to `tasks`.
pub open spec fn view_push_tasks(v: DbView, row: Task) -> DbView {
    DbView { tasks: v.tasks.push(row), ids: Counters { tasks: (v.ids.tasks + 1) as i32, ..v.ids }, ..v }
}

impl Store {
    /// Inserts a row into `tasks` under the next id, and returns it.
    pub fn insert_tasks(&mut self, task_name: String, task_description: String, project_id: i32, task_status: String, due_date: DateTime) -> (r: Task)
        requires
            old(self).ids.tasks < i32::MAX,
        ensures
            r == (Task { id: old(self).ids.tasks, task_name, task_description, project_id, task_status, due_date }),
            final(self)@ == view_push_tasks(old(self)@, r),
    {
        let id = self.ids.tasks;
        let row = Task { id, task_name, task_description, project_id, task_status, due_date };
        let copy = row.duplicate();
        self.tasks.push(row);
        self.ids.tasks = id + 1;
        copy
    }
}

/// The view after appending a row to `user_tasks`.
pub open spec fn view_push_user_tasks(v: DbView, row: UserTask) -> DbView {
    DbView { user_tasks: v.user_tasks.push(row), ids: Counters { user_tasks: (v.ids.user_tasks + 1) as i32, ..v.ids }, ..v }
}

impl Store {
    /// Inserts a row into `user_tasks` under the next id, and returns it.
    pub fn insert_user_tasks(&mut self, user_id: i32, task_id: i32) -> (r: UserTask)
        requires
            old(self).ids.user_tasks < i32::MAX,
        ensures
            r == (UserTask { id: old(self).ids.user_tasks, user_id, task_id }),
            final(self)@ == view_push_user_tasks(old(self)@, r),
    {
        let id = self.ids.user_tasks;
        let row = UserTask { id, user_id, task_id };
        let copy = row.duplicate();
        self.user_tasks.push(row);
        self.ids.user_tasks = id + 1;
        copy
    }
}

/// The view after appending a row to `channel_chats`.
pub open spec fn view_push_channel_chats(v: DbView, row: ChannelChat) -> DbView {
    DbView { channel_chats: v.channel_chats.push(row), ids: Counters { channel_chats: (v.ids.channel_chats + 1) as i32, ..v.ids }, ..v }
}

impl Store {
    /// Inserts a row into `channel_chats` under the next id, and returns it.
    pub fn insert_channel_chats(&mut self, user_id: i32, space_channel_id: i32, chat: String, created_at: DateTime) -> (r: ChannelChat)
        requires
            old(self).ids.channel_chats < i32::MAX,
        ensures
            r == (ChannelChat { id: old(self).ids.channel_chats, user_id, space_channel_id, chat, created_at }),
            final(self)@ == view_push_channel_chats(old(self)@, r),
    {
        let id = self.ids.channel_chats;
        let row = ChannelChat { id, user_id, space_channel_id, chat, created_at };
        let copy = row.duplicate();
        self.channel_chats.push(row);
        self.ids.channel_chats = id + 1;
        copy
    }
}

/// The view after appending a row to `user_chat`.
pub open spec fn view_push_user_chat(v: DbView, row: UserChat) -> DbView {
    DbView { user_chat: v.user_chat.push(row), ids: Counters { user_chat: (v.ids.user_chat + 1) as i32, ..v.ids }, ..v }
}

impl Store {
    /// Inserts a row into `user_chat` under the next id, and returns it.
    pub fn insert_user_chat(&mut self, user_id: i32, reciever: i32, chat: String, created_at: DateTime) -> (r: UserChat)
        requires
            old(self).ids.user_chat < i32::MAX,
        ensures
            r == (UserChat { id: old(self).ids.user_chat, user_id, reciever, chat, created_at }),
            final(self)@ == view_push_user_chat(old(self)@, r),
    {
        let id = self.ids.user_chat;
        let row = UserChat { id, user_id, reciever, chat, created_at };
        let copy = row.duplicate();
        self.user_chat.push(row);
        self.ids.user_chat = id + 1;
        copy
    }
}

/// The view after appending a row to `unread_user_chat`.
pub open spec fn view_push_unread_user_chat(v: DbView, row: ChatList) -> DbView {
    DbView { unread_user_chat: v.unread_user_chat.push(row), ids: Counters { unread_user_chat: (v.ids.unread_user_chat + 1) as i32, ..v.ids }, ..v }
}

impl Store {
    /// Inserts a row into `unread_user_chat` under the next id, and returns it.
    pub fn insert_unread_user_chat(&mut self, user_id: i32, other: i32, updated_at: DateTime, space_id: i32) -> (r: ChatList)
        requires
            old(self).ids.unread_user_chat < i32::MAX,
        ensures
            r == (ChatList { id: old(self).ids.unread_user_chat, user_id, other, updated_at, space_id }),
            final(self)@ == view_push_unread_user_chat(old(self)@, r),
    {
        let id = self.ids.unread_user_chat;
        let row = ChatList { id, user_id, other, updated_at, space_id };
        let copy = row.duplicate();
        self.unread_user_chat.push(row);
        self.ids.unread_user_chat = id + 1;
        copy
    }
}

/// The view after appending a row to `chat_thread`.
pub open spec fn view_push_chat_thread(v: DbView, row: ChatThread) -> DbView {
    DbView { chat_thread: v.chat_thread.push(row), ids: Counters { chat_thread: (v.ids.chat_thread + 1) as i32, ..v.ids }, ..v }
}

impl Store {
    /// Inserts a row into `chat_thread` under the next id, and returns it.
    pub fn insert_chat_thread(&mut self, user_id: i32, space_channel_id: i32, channel_chat_id: i32, chat: String, created_at: DateTime) -> (r: ChatThread)
        requires
            old(self).ids.chat_thread < i32::MAX,
        ensures
            r == (ChatThread { id: old(self).ids.chat_thread, user_id, space_channel_id, channel_chat_id, chat, created_at }),
            final(self)@ == view_push_chat_thread(old(self)@, r),
    {
        let id = self.ids.chat_thread;
        let row = ChatThread { id, user_id, space_channel_id, channel_chat_id, chat, created_at };
        let copy = row.duplicate();
        self.chat_thread.push(row);
        self.ids.chat_thread = id + 1;
        copy
    }
}

/// The view after appending a row to `spaces_email`.
pub open spec fn view_push_spaces_email(v: DbView, row: SpaceEmail) -> DbView {
    DbView { spaces_email: v.spaces_email.push(row), ids: Counters { spaces_email: (v.ids.spaces_email + 1) as i32, ..v.ids }, ..v }
}

impl Store {
    /// Inserts a row into `spaces_email` under the next id, and returns it.
    pub fn insert_spaces_email(&mut self, email_address: String, email_password: String, email_provider: String, space_id: i32) -> (r: SpaceEmail)
        requires
            old(self).ids.spaces_email < i32::MAX,
        ensures
            r == (SpaceEmail { id: old(self).ids.spaces_email, email_address, email_password, email_provider, space_id }),
            final(self)@ == view_push_spaces_email(old(self)@, r),
    {
        let id = self.ids.spaces_email;
        let row = SpaceEmail { id, email_address, email_password, email_provider, space_id };
        let copy = row.duplicate();
        self.spaces_email.push(row);
        self.ids.spaces_email = id + 1;
        copy
    }
}

} // verus!
