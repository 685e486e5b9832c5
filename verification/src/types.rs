//! The request bodies and the response envelopes of the service.
use crate::model::{ChannelChat, User, UserChat};
use vstd::prelude::*;
use vstd::string::StringExecFns;

verus! {

/// Registration form.
#[derive(Clone, Debug, PartialEq)]
pub struct CreateUser {
    pub username: String,
    pub email: String,
    pub user_password: String,
}

/// A token passed in the query string.
#[derive(Clone, Debug, PartialEq)]
pub struct QueryInfo {
    pub token: String,
}

/// Page number (from 1) and page size of a listing.
#[derive(Clone, Debug, PartialEq)]
pub struct PaginateQuery {
    pub page: i64,
    pub per_page: i64,
}

/// Login form.
#[derive(Clone, Debug, PartialEq)]
pub struct LoginUser {
    pub email: String,
    pub user_password: String,
}

/// New user name.
#[derive(Clone, Debug, PartialEq)]
pub struct UpdateName {
    pub username: String,
}

/// Password change form.
#[derive(Clone, Debug, PartialEq)]
pub struct UpdatePassword {
    pub old_password: String,
    pub new_password: String,
}

/// Password reset request.
#[derive(Clone, Debug, PartialEq)]
pub struct ForgotPassword {
    pub email: String,
}

/// Name and description of a space.
#[derive(Clone, Debug, PartialEq)]
pub struct CreateSpace {
    pub spaces_name: String,
    pub spaces_desc: String,
}

/// A space name taken from the path.
#[derive(Clone, Debug, PartialEq)]
pub struct PathInfo {
    pub info: String,
}

/// Addresses invited to a space.
#[derive(Clone, Debug, PartialEq)]
pub struct InviteToSpace {
    pub email: Vec<String>,
}

/// A user id.
#[derive(Clone, Debug, PartialEq)]
pub struct UserIdStruct {
    pub user: i32,
}

/// New admin status of a user.
#[derive(Clone, Debug, PartialEq)]
pub struct PriviledgeStruct {
    pub admin: bool,
    pub user: i32,
}

/// A channel name.
#[derive(Clone, Debug, PartialEq)]
pub struct ChannelField {
    pub channel_name: String,
}

/// A space name and a second name (channel, event or project) from the path.
#[derive(Clone, Debug, PartialEq)]
pub struct ChannelPathInfo {
    pub info: String,
    pub channel: String,
}

/// A space name and a second name (folder or search text) from the path.
#[derive(Clone, Debug, PartialEq)]
pub struct MailChannelPathInfo {
    pub info: String,
    pub name: String,
}

/// An id from the path.
#[derive(Clone, Debug, PartialEq)]
pub struct IdPathInfo {
    pub id: i32,
}

/// Two ids from the path.
#[derive(Clone, Debug, PartialEq)]
pub struct MultiIdPathInfo {
    pub user_id: i32,
    pub chat_id: i32,
}

/// A space name and an id from the path.
#[derive(Clone, Debug, PartialEq)]
pub struct AddUserToFolderPath {
    pub info: String,
    pub id: i32,
}

/// A space name, asset folder id and file type from the path.
#[derive(Clone, Debug, PartialEq)]
pub struct AddFileContent {
    pub info: String,
    pub id: i32,
    pub file_type: String,
}

/// A mail folder name.
#[derive(Clone, Debug, PartialEq)]
pub struct CreateMailList {
    pub folder_name: String,
}

/// An id.
#[derive(Clone, Debug, PartialEq)]
pub struct DeleteMailList {
    pub id: i32,
}

/// A list of user ids.
#[derive(Clone, Debug, PartialEq)]
pub struct AddUserToFoldr {
    pub id: Vec<i32>,
}

/// Title and body of a mail.
#[derive(Clone, Debug, PartialEq)]
pub struct SendMail {
    pub title: String,
    pub body: String,
}

/// An asset folder name.
#[derive(Clone, Debug, PartialEq)]
pub struct AddAssetFolder {
    pub folder_name: String,
}

/// A new event: name, description, year and `[month, day]`.
#[derive(Clone, Debug, PartialEq)]
pub struct AddEvent {
    pub event_name: String,
    pub event_description: String,
    pub year: i32,
    pub event_date: Vec<u32>,
}

/// New name and description of an event.
#[derive(Clone, Debug, PartialEq)]
pub struct EditEvent {
    pub event_name: String,
    pub event_description: String,
}

/// A project name.
#[derive(Clone, Debug, PartialEq)]
pub struct AddProject {
    pub project_name: String,
}

/// A new task: name, description, year and `[month, day]` of the due date.
#[derive(Clone, Debug, PartialEq)]
pub struct AddTask {
    pub task_name: String,
    pub task_description: String,
    pub year: i32,
    pub due_date: Vec<u32>,
}

/// New name and description of a task.
#[derive(Clone, Debug, PartialEq)]
pub struct UpdateTask {
    pub task_name: String,
    pub task_description: String,
}

/// New status of a task.
#[derive(Clone, Debug, PartialEq)]
pub struct UpdateTaskStatus {
    pub task_status: String,
}

/// The outgoing mail account of a space.
#[derive(Clone, Debug, PartialEq)]
pub struct AddEmail {
    pub email_address: String,
    pub email_provider: String,
    pub email_password: String,
}

/// A direct message with its sender, as pushed to listeners.
#[derive(Clone, Debug, PartialEq)]
pub struct UserMessage {
    pub message: UserChat,
    pub user: User,
}

/// A channel message with its sender, as pushed to listeners.
#[derive(Clone, Debug, PartialEq)]
pub struct ChannelMessage {
    pub message: ChannelChat,
    pub user: User,
}

/// The text of a message.
#[derive(Clone, Debug, PartialEq)]
pub struct ChatMessage {
    pub chat: String,
}

/// A response: success flag and payload.
#[derive(Clone, Debug, PartialEq)]
pub struct Response<T> {
    pub success: bool,
    pub message: T,
}

impl<T: View> View for Response<T> {
    type V = (bool, T::V);

    open spec fn view(&self) -> (bool, T::V) {
        (self.success, self.message@)
    }
}

impl<T> Response<T> {
    /// A response with the given flag and payload.
    pub fn new(success: bool, message: T) -> (r: Self)
        ensures
            r.success == success,
            r.message == message,
    {
        Self { success, message }
    }
}

/// The view of an optional value by the view of its content.
pub open spec fn opt_view<T: View>(o: Option<T>) -> Option<T::V> {
    match o {
        Some(x) => Some(x@),
        None => None,
    }
}

/// A response whose message and value may be absent.
#[derive(Clone, Debug, PartialEq)]
pub struct OptionalResponse<T, U> {
    pub success: bool,
    pub message: Option<T>,
    pub value: Option<U>,
}

impl<T: View, U: View> View for OptionalResponse<T, U> {
    type V = (bool, Option<T::V>, Option<U::V>);

    open spec fn view(&self) -> (bool, Option<T::V>, Option<U::V>) {
        (self.success, opt_view(self.message), opt_view(self.value))
    }
}

impl<T, U> OptionalResponse<T, U> {
    /// A response with the given flag, message and value.
    pub fn new(success: bool, message: Option<T>, value: Option<U>) -> (r: Self)
        ensures
            r.success == success,
            r.message == message,
            r.value == value,
    {
        OptionalResponse { success, message, value }
    }
}

/// An error response.
#[derive(Clone, Debug, PartialEq)]
pub struct ResponseError {
    pub success: bool,
    pub error: String,
}

impl ResponseError {
    /// An error response with the given flag and text.
    pub fn new(success: bool, error: String) -> (r: Self)
        ensures
            r.success == success,
            r.error == error,
    {
        Self { success, error }
    }
}

/// A response carrying a text.
pub fn reply(success: bool, text: &str) -> (r: Response<String>)
    ensures
        r@ == (success, text@),
{
    Response::new(success, String::from_str(text))
}

/// An optional response carrying a text and maybe a value.
pub fn opt_reply<U: View>(success: bool, text: &str, value: Option<U>) -> (r: OptionalResponse<
    String,
    U,
>)
    ensures
        r@ == (success, Some(text@), opt_view(value)),
{
    OptionalResponse::new(success, Some(String::from_str(text)), value)
}

} // verus!
