//! The rows of the service's tables, as plain values.
use crate::datetime::DateTime;
use vstd::prelude::*;

verus! {

/// A row of a table: it can be copied without change.
pub trait Row: Sized {
    /// A copy of the row.
    fn duplicate(&self) -> (r: Self)
        ensures
            r == *self,
    ;
}

/// A registered account.
#[derive(Clone, Debug, PartialEq)]
pub struct User {
    pub id: i32,
    pub username: String,
    pub email: String,
    pub user_password: String,
    pub user_image: String,
    pub verified: bool,
    pub created_at: DateTime,
}

impl View for User {
    type V = User;

    open spec fn view(&self) -> User {
        *self
    }
}

impl Row for User {
    fn duplicate(&self) -> (r: Self)
    {
        User {
            id: self.id,
            username: self.username.clone(),
            email: self.email.clone(),
            user_password: self.user_password.clone(),
            user_image: self.user_image.clone(),
            verified: self.verified,
            created_at: self.created_at,
        }
    }
}

/// A workspace that users join.
#[derive(Clone, Debug, PartialEq)]
pub struct Space {
    pub id: i32,
    pub spaces_name: String,
    pub spaces_desc: String,
    pub spaces_img: String,
    pub created_at: DateTime,
}

impl View for Space {
    type V = Space;

    open spec fn view(&self) -> Space {
        *self
    }
}

impl Row for Space {
    fn duplicate(&self) -> (r: Self)
    {
        Space {
            id: self.id,
            spaces_name: self.spaces_name.clone(),
            spaces_desc: self.spaces_desc.clone(),
            spaces_img: self.spaces_img.clone(),
            created_at: self.created_at,
        }
    }
}

/// Membership of a user in a space.
#[derive(Clone, Debug, PartialEq)]
pub struct SpaceUser {
    pub id: i32,
    pub user_id: i32,
    pub space_id: i32,
    pub admin_status: bool,
}

impl View for SpaceUser {
    type V = SpaceUser;

    open spec fn view(&self) -> SpaceUser {
        *self
    }
}

impl Row for SpaceUser {
    fn duplicate(&self) -> (r: Self)
    {
        SpaceUser {
            id: self.id,
            user_id: self.user_id,
            space_id: self.space_id,
            admin_status: self.admin_status,
        }
    }
}

/// A chat channel of a space.
#[derive(Clone, Debug, PartialEq)]
pub struct SpaceChannel {
    pub id: i32,
    pub channel_name: String,
    pub space_id: i32,
}

impl View for SpaceChannel {
    type V = SpaceChannel;

    open spec fn view(&self) -> SpaceChannel {
        *self
    }
}

impl Row for SpaceChannel {
    fn duplicate(&self) -> (r: Self)
    {
        SpaceChannel {
            id: self.id,
            channel_name: self.channel_name.clone(),
            space_id: self.space_id,
        }
    }
}

/// A mail folder (mailing list) of a space.
#[derive(Clone, Debug, PartialEq)]
pub struct MailList {
    pub id: i32,
    pub folder_name: String,
    pub space_id: i32,
}

impl View for MailList {
    type V = MailList;

    open spec fn view(&self) -> MailList {
        *self
    }
}

impl Row for MailList {
    fn duplicate(&self) -> (r: Self)
    {
        MailList {
            id: self.id,
            folder_name: self.folder_name.clone(),
            space_id: self.space_id,
        }
    }
}

/// Membership of a user in a mail folder.
#[derive(Clone, Debug, PartialEq)]
pub struct UserMail {
    pub id: i32,
    pub mail_list_id: i32,
    pub user_id: i32,
}

impl View for UserMail {
    type V = UserMail;

    open spec fn view(&self) -> UserMail {
        *self
    }
}

impl Row for UserMail {
    fn duplicate(&self) -> (r: Self)
    {
        UserMail {
            id: self.id,
            mail_list_id: self.mail_list_id,
            user_id: self.user_id,
        }
    }
}

/// A file folder of a space.
#[derive(Clone, Debug, PartialEq)]
pub struct Asset {
    pub id: i32,
    pub folder_name: String,
    pub space_id: i32,
    pub created_at: DateTime,
}

impl View for Asset {
    type V = Asset;

    open spec fn view(&self) -> Asset {
        *self
    }
}

impl Row for Asset {
    fn duplicate(&self) -> (r: Self)
    {
        Asset {
            id: self.id,
            folder_name: self.folder_name.clone(),
            space_id: self.space_id,
            created_at: self.created_at,
        }
    }
}

/// A stored file of an asset folder.
#[derive(Clone, Debug, PartialEq)]
pub struct AssetContent {
    pub id: i32,
    pub file_content: String,
    pub file_type: String,
    pub asset_id: i32,
    pub created_at: DateTime,
}

impl View for AssetContent {
    type V = AssetContent;

    open spec fn view(&self) -> AssetContent {
        *self
    }
}

impl Row for AssetContent {
    fn duplicate(&self) -> (r: Self)
    {
        AssetContent {
            id: self.id,
            file_content: self.file_content.clone(),
            file_type: self.file_type.clone(),
            asset_id: self.asset_id,
            created_at: self.created_at,
        }
    }
}

/// An event of a space, with its reminder flag.
#[derive(Clone, Debug, PartialEq)]
pub struct Event {
    pub id: i32,
    pub event_name: String,
    pub event_description: String,
    pub reminded: bool,
    pub event_date: DateTime,
    pub space_id: i32,
}

impl View for Event {
    type V = Event;

    open spec fn view(&self) -> Event {
        *self
    }
}

impl Row for Event {
    fn duplicate(&self) -> (r: Self)
    {
        Event {
            id: self.id,
            event_name: self.event_name.clone(),
            event_description: self.event_description.clone(),
            reminded: self.reminded,
            event_date: self.event_date,
            space_id: self.space_id,
        }
    }
}

/// A project of a space.
#[derive(Clone, Debug, PartialEq)]
pub struct Project {
    pub id: i32,
    pub project_name: String,
    pub space_id: i32,
    pub created_at: DateTime,
}

impl View for Project {
    type V = Project;

    open spec fn view(&self) -> Project {
        *self
    }
}

impl Row for Project {
    fn duplicate(&self) -> (r: Self)
    {
        Project {
            id: self.id,
            project_name: self.project_name.clone(),
            space_id: self.space_id,
            created_at: self.created_at,
        }
    }
}

/// A task of a project.
#[derive(Clone, Debug, PartialEq)]
pub struct Task {
    pub id: i32,
    pub task_name: String,
    pub task_description: String,
    pub project_id: i32,
    pub task_status: String,
    pub due_date: DateTime,
}

impl View for Task {
    type V = Task;

    open spec fn view(&self) -> Task {
        *self
    }
}

impl Row for Task {
    fn duplicate(&self) -> (r: Self)
    {
        Task {
            id: self.id,
            task_name: self.task_name.clone(),
            task_description: self.task_description.clone(),
            project_id: self.project_id,
            task_status: self.task_status.clone(),
            due_date: self.due_date,
        }
    }
}

/// Assignment of a user to a task.
#[derive(Clone, Debug, PartialEq)]
pub struct UserTask {
    pub id: i32,
    pub user_id: i32,
    pub task_id: i32,
}

impl View for UserTask {
    type V = UserTask;

    open spec fn view(&self) -> UserTask {
        *self
    }
}

impl Row for UserTask {
    fn duplicate(&self) -> (r: Self)
    {
        UserTask {
            id: self.id,
            user_id: self.user_id,
            task_id: self.task_id,
        }
    }
}

/// A message posted in a channel.
#[derive(Clone, Debug, PartialEq)]
pub struct ChannelChat {
    pub id: i32,
    pub user_id: i32,
    pub space_channel_id: i32,
    pub chat: String,
    pub created_at: DateTime,
}

impl View for ChannelChat {
    type V = ChannelChat;

    open spec fn view(&self) -> ChannelChat {
        *self
    }
}

impl Row for ChannelChat {
    fn duplicate(&self) -> (r: Self)
    {
        ChannelChat {
            id: self.id,
            user_id: self.user_id,
            space_channel_id: self.space_channel_id,
            chat: self.chat.clone(),
            created_at: self.created_at,
        }
    }
}

/// A direct message from one user to another.
#[derive(Clone, Debug, PartialEq)]
pub struct UserChat {
    pub id: i32,
    pub user_id: i32,
    pub reciever: i32,
    pub chat: String,
    pub created_at: DateTime,
}

impl View for UserChat {
    type V = UserChat;

    open spec fn view(&self) -> UserChat {
        *self
    }
}

impl Row for UserChat {
    fn duplicate(&self) -> (r: Self)
    {
        UserChat {
            id: self.id,
            user_id: self.user_id,
            reciever: self.reciever,
            chat: self.chat.clone(),
            created_at: self.created_at,
        }
    }
}

/// Membership of a user in a channel.
#[derive(Clone, Debug, PartialEq)]
pub struct ChannelUser {
    pub id: i32,
    pub space_channel_id: i32,
    pub space_id: i32,
    pub user_id: i32,
    pub channel_admin: bool,
    pub viewed: i32,
}

impl View for ChannelUser {
    type V = ChannelUser;

    open spec fn view(&self) -> ChannelUser {
        *self
    }
}

impl Row for ChannelUser {
    fn duplicate(&self) -> (r: Self)
    {
        ChannelUser {
            id: self.id,
            space_channel_id: self.space_channel_id,
            space_id: self.space_id,
            user_id: self.user_id,
            channel_admin: self.channel_admin,
            viewed: self.viewed,
        }
    }
}

/// The outgoing mail account of a space (password stored encrypted).
#[derive(Clone, Debug, PartialEq)]
pub struct SpaceEmail {
    pub id: i32,
    pub email_address: String,
    pub email_password: String,
    pub email_provider: String,
    pub space_id: i32,
}

impl View for SpaceEmail {
    type V = SpaceEmail;

    open spec fn view(&self) -> SpaceEmail {
        *self
    }
}

impl Row for SpaceEmail {
    fn duplicate(&self) -> (r: Self)
    {
        SpaceEmail {
            id: self.id,
            email_address: self.email_address.clone(),
            email_password: self.email_password.clone(),
            email_provider: self.email_provider.clone(),
            space_id: self.space_id,
        }
    }
}

/// A reply in the thread of a channel message.
#[derive(Clone, Debug, PartialEq)]
pub struct ChatThread {
    pub id: i32,
    pub user_id: i32,
    pub space_channel_id: i32,
    pub channel_chat_id: i32,
    pub chat: String,
    pub created_at: DateTime,
}

impl View for ChatThread {
    type V = ChatThread;

    open spec fn view(&self) -> ChatThread {
        *self
    }
}

impl Row for ChatThread {
    fn duplicate(&self) -> (r: Self)
    {
        ChatThread {
            id: self.id,
            user_id: self.user_id,
            space_channel_id: self.space_channel_id,
            channel_chat_id: self.channel_chat_id,
            chat: self.chat.clone(),
            created_at: self.created_at,
        }
    }
}

/// An entry of a user's direct-message list.
#[derive(Clone, Debug, PartialEq)]
pub struct ChatList {
    pub id: i32,
    pub user_id: i32,
    pub other: i32,
    pub updated_at: DateTime,
    pub space_id: i32,
}

impl View for ChatList {
    type V = ChatList;

    open spec fn view(&self) -> ChatList {
        *self
    }
}

impl Row for ChatList {
    fn duplicate(&self) -> (r: Self)
    {
        ChatList {
            id: self.id,
            user_id: self.user_id,
            other: self.other,
            updated_at: self.updated_at,
            space_id: self.space_id,
        }
    }
}

impl<A: Row, B: Row> Row for (A, B) {
    fn duplicate(&self) -> (r: Self)
    {
        (self.0.duplicate(), self.1.duplicate())
    }
}

} // verus!
