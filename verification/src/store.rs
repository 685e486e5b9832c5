//! The store: every table of the service as a vector of rows, with the next
//! id of each table, and its view as sequences of rows.
use crate::model::{
    Asset, AssetContent, ChannelChat, ChannelUser, ChatList, ChatThread, Event, MailList, Project,
    Space, SpaceChannel, SpaceEmail, SpaceUser, Task, User, UserChat, UserMail, UserTask,
};
use vstd::prelude::*;

verus! {

/// Why a query of the store failed.
#[derive(Clone, Copy, Debug, PartialEq, Eq)]
pub enum DbError {
    /// No row matched a lookup that needs one.
    NotFound,
    /// An `ILIKE` pattern ends with a lone escape character.
    BadPattern,
    /// A row would repeat a value that must be unique.
    UniqueViolation,
    /// The request could not be carried out (bad input date, unreadable
    /// stored secret, failing hash).
    Failure,
}

/// The view of a result by the view of its value.
pub open spec fn rview<T: View>(r: Result<T, DbError>) -> Result<T::V, DbError> {
    match r {
        Ok(x) => Ok(x@),
        Err(e) => Err(e),
    }
}

/// The next id of each table (ids start at 1 and are never reused).
#[derive(Clone, Copy, Debug, PartialEq, Eq)]
pub struct Counters {
    pub users: i32,
    pub spaces: i32,
    pub spaces_users: i32,
    pub spaces_channel: i32,
    pub channel_users: i32,
    pub maillists: i32,
    pub usermails: i32,
    pub assets: i32,
    pub asset_contents: i32,
    pub events: i32,
    pub projects: i32,
    pub tasks: i32,
    pub user_tasks: i32,
    pub channel_chats: i32,
    pub user_chat: i32,
    pub unread_user_chat: i32,
    pub chat_thread: i32,
    pub spaces_email: i32,
}

impl Counters {
    /// Every table can take `k` more rows before its ids run out.
    pub open spec fn room(self, k: int) -> bool {
        &&& 1 <= self.users && self.users + k <= i32::MAX
        &&& 1 <= self.spaces && self.spaces + k <= i32::MAX
        &&& 1 <= self.spaces_users && self.spaces_users + k <= i32::MAX
        &&& 1 <= self.spaces_channel && self.spaces_channel + k <= i32::MAX
        &&& 1 <= self.channel_users && self.channel_users + k <= i32::MAX
        &&& 1 <= self.maillists && self.maillists + k <= i32::MAX
        &&& 1 <= self.usermails && self.usermails + k <= i32::MAX
        &&& 1 <= self.assets && self.assets + k <= i32::MAX
        &&& 1 <= self.asset_contents && self.asset_contents + k <= i32::MAX
        &&& 1 <= self.events && self.events + k <= i32::MAX
        &&& 1 <= self.projects && self.projects + k <= i32::MAX
        &&& 1 <= self.tasks && self.tasks + k <= i32::MAX
        &&& 1 <= self.user_tasks && self.user_tasks + k <= i32::MAX
        &&& 1 <= self.channel_chats && self.channel_chats + k <= i32::MAX
        &&& 1 <= self.user_chat && self.user_chat + k <= i32::MAX
        &&& 1 <= self.unread_user_chat && self.unread_user_chat + k <= i32::MAX
        &&& 1 <= self.chat_thread && self.chat_thread + k <= i32::MAX
        &&& 1 <= self.spaces_email && self.spaces_email + k <= i32::MAX
    }
}

/// The contents of the store as sequences of rows.
pub struct DbView {
    pub users: Seq<User>,
    pub spaces: Seq<Space>,
    pub spaces_users: Seq<SpaceUser>,
    pub spaces_channel: Seq<SpaceChannel>,
    pub channel_users: Seq<ChannelUser>,
    pub maillists: Seq<MailList>,
    pub usermails: Seq<UserMail>,
    pub assets: Seq<Asset>,
    pub asset_contents: Seq<AssetContent>,
    pub events: Seq<Event>,
    pub projects: Seq<Project>,
    pub tasks: Seq<Task>,
    pub user_tasks: Seq<UserTask>,
    pub channel_chats: Seq<ChannelChat>,
    pub user_chat: Seq<UserChat>,
    pub unread_user_chat: Seq<ChatList>,
    pub chat_thread: Seq<ChatThread>,
    pub spaces_email: Seq<SpaceEmail>,
    pub ids: Counters,
}

/// All tables of the service.
pub struct Store {
    pub users: Vec<User>,
    pub spaces: Vec<Space>,
    pub spaces_users: Vec<SpaceUser>,
    pub spaces_channel: Vec<SpaceChannel>,
    pub channel_users: Vec<ChannelUser>,
    pub maillists: Vec<MailList>,
    pub usermails: Vec<UserMail>,
    pub assets: Vec<Asset>,
    pub asset_contents: Vec<AssetContent>,
    pub events: Vec<Event>,
    pub projects: Vec<Project>,
    pub tasks: Vec<Task>,
    pub user_tasks: Vec<UserTask>,
    pub channel_chats: Vec<ChannelChat>,
    pub user_chat: Vec<UserChat>,
    pub unread_user_chat: Vec<ChatList>,
    pub chat_thread: Vec<ChatThread>,
    pub spaces_email: Vec<SpaceEmail>,
    pub ids: Counters,
}

impl View for Store {
    type V = DbView;

    open spec fn view(&self) -> DbView {
        DbView {
            users: self.users@,
            spaces: self.spaces@,
            spaces_users: self.spaces_users@,
            spaces_channel: self.spaces_channel@,
            channel_users: self.channel_users@,
            maillists: self.maillists@,
            usermails: self.usermails@,
            assets: self.assets@,
            asset_contents: self.asset_contents@,
            events: self.events@,
            projects: self.projects@,
            tasks: self.tasks@,
            user_tasks: self.user_tasks@,
            channel_chats: self.channel_chats@,
            user_chat: self.user_chat@,
            unread_user_chat: self.unread_user_chat@,
            chat_thread: self.chat_thread@,
            spaces_email: self.spaces_email@,
            ids: self.ids,
        }
    }
}

/// An empty store.
pub open spec fn empty_view() -> DbView {
    DbView {
        users: Seq::empty(),
        spaces: Seq::empty(),
        spaces_users: Seq::empty(),
        spaces_channel: Seq::empty(),
        channel_users: Seq::empty(),
        maillists: Seq::empty(),
        usermails: Seq::empty(),
        assets: Seq::empty(),
        asset_contents: Seq::empty(),
        events: Seq::empty(),
        projects: Seq::empty(),
        tasks: Seq::empty(),
        user_tasks: Seq::empty(),
        channel_chats: Seq::empty(),
        user_chat: Seq::empty(),
        unread_user_chat: Seq::empty(),
        chat_thread: Seq::empty(),
        spaces_email: Seq::empty(),
        ids: Counters { users: 1, spaces: 1, spaces_users: 1, spaces_channel: 1, channel_users: 1, maillists: 1, usermails: 1, assets: 1, asset_contents: 1, events: 1, projects: 1, tasks: 1, user_tasks: 1, channel_chats: 1, user_chat: 1, unread_user_chat: 1, chat_thread: 1, spaces_email: 1 },
    }
}

impl Store {
    /// A store with empty tables.
    pub fn new() -> (s: Store)
        ensures
            s@ == empty_view(),
    {
        Store {
            users: Vec::new(),
            spaces: Vec::new(),
            spaces_users: Vec::new(),
            spaces_channel: Vec::new(),
            channel_users: Vec::new(),
            maillists: Vec::new(),
            usermails: Vec::new(),
            assets: Vec::new(),
            asset_contents: Vec::new(),
            events: Vec::new(),
            projects: Vec::new(),
            tasks: Vec::new(),
            user_tasks: Vec::new(),
            channel_chats: Vec::new(),
            user_chat: Vec::new(),
            unread_user_chat: Vec::new(),
            chat_thread: Vec::new(),
            spaces_email: Vec::new(),
            ids: Counters { users: 1, spaces: 1, spaces_users: 1, spaces_channel: 1, channel_users: 1, maillists: 1, usermails: 1, assets: 1, asset_contents: 1, events: 1, projects: 1, tasks: 1, user_tasks: 1, channel_chats: 1, user_chat: 1, unread_user_chat: 1, chat_thread: 1, spaces_email: 1 },
        }
    }

    /// Whether every table can take `k` more rows.
    pub fn has_room(&self, k: i32) -> (r: bool)
        requires
            k >= 0,
        ensures
            r == self@.ids.room(k as int),
    {
        1 <= self.ids.users && self.ids.users <= i32::MAX - k
            && 1 <= self.ids.spaces && self.ids.spaces <= i32::MAX - k
            && 1 <= self.ids.spaces_users && self.ids.spaces_users <= i32::MAX - k
            && 1 <= self.ids.spaces_channel && self.ids.spaces_channel <= i32::MAX - k
            && 1 <= self.ids.channel_users && self.ids.channel_users <= i32::MAX - k
            && 1 <= self.ids.maillists && self.ids.maillists <= i32::MAX - k
            && 1 <= self.ids.usermails && self.ids.usermails <= i32::MAX - k
            && 1 <= self.ids.assets && self.ids.assets <= i32::MAX - k
            && 1 <= self.ids.asset_contents && self.ids.asset_contents <= i32::MAX - k
            && 1 <= self.ids.events && self.ids.events <= i32::MAX - k
            && 1 <= self.ids.projects && self.ids.projects <= i32::MAX - k
            && 1 <= self.ids.tasks && self.ids.tasks <= i32::MAX - k
            && 1 <= self.ids.user_tasks && self.ids.user_tasks <= i32::MAX - k
            && 1 <= self.ids.channel_chats && self.ids.channel_chats <= i32::MAX - k
            && 1 <= self.ids.user_chat && self.ids.user_chat <= i32::MAX - k
            && 1 <= self.ids.unread_user_chat && self.ids.unread_user_chat <= i32::MAX - k
            && 1 <= self.ids.chat_thread && self.ids.chat_thread <= i32::MAX - k
            && 1 <= self.ids.spaces_email && self.ids.spaces_email <= i32::MAX - k
    }
}

} // verus!
