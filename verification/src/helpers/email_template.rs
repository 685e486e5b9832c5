//! The HTML bodies of the mails that the service sends.
use vstd::prelude::*;
use vstd::string::StringExecFns;

verus! {

/// The text that `verification_email` writes.
pub open spec fn verification_body(token: Seq<char>) -> Seq<char> {
    "\n    <h1>Welcome to Spaces</h1>\n    Click the link to verify account<br/>\n    <a href='http://localhost:5000/user/verify?token="@ + token + "'>click</a>\n    "@
}

/// The text that `forgot_password_email` writes.
pub open spec fn forgot_password_body(password: Seq<char>) -> Seq<char> {
    "<h1>Password Reset</h1>\n        \n        Your new password has been set to <b>"@ + password + "</b>\n        Do well to change the password as soon as possible\n        "@
}

/// The text that `invite_user` writes.
pub open spec fn invite_user_body(name: Seq<char>, token: Seq<char>) -> Seq<char> {
    "\n    <h1>You have been invited to "@ + name + " Space</h1>\n    Follow the link to complete registration<br/>\n    <a href='http://localhost:5000/spacies/invitepage?token="@ + token + "'>click</a>\n    "@
}

/// The text that `send_reminder` writes.
pub open spec fn reminder_body(event_name: Seq<char>, space_name: Seq<char>, description: Seq<char>) -> Seq<char> {
    "\n    <h1>Reminder: "@ + event_name + "</h1>\n    An event of the "@ + space_name + " space takes place today.<br/>\n    "@ + description + "\n    "@
}

/// The text that `added_user` writes.
pub open spec fn added_user_body(name: Seq<char>) -> Seq<char> {
    "\n    <h1>You have been added to "@ + name + " space</h1>\n    "@
}


/// The verification mail: a link that verifies the account of the token.
pub fn verification_email(token: &String) -> (template: String)
    ensures
        template@ == verification_body(token@),
{
    let mut template = String::from_str("\n    <h1>Welcome to Spaces</h1>\n    Click the link to verify account<br/>\n    <a href='http://localhost:5000/user/verify?token=");
    template.append(token.as_str());
    template.append("'>click</a>\n    ");
    template
}

/// The password-reset mail, telling the new password.
pub fn forgot_password_email(password: &String) -> (template: String)
    ensures
        template@ == forgot_password_body(password@),
{
    let mut template = String::from_str("<h1>Password Reset</h1>\n        \n        Your new password has been set to <b>");
    template.append(password.as_str());
    template.append("</b>\n        Do well to change the password as soon as possible\n        ");
    template
}

/// The invitation mail to a space, with a link that carries the invitation token.
pub fn invite_user(name: &String, token: &String) -> (template: String)
    ensures
        template@ == invite_user_body(name@, token@),
{
    let mut template = String::from_str("\n    <h1>You have been invited to ");
    template.append(name.as_str());
    template.append(" Space</h1>\n    Follow the link to complete registration<br/>\n    <a href='http://localhost:5000/spacies/invitepage?token=");
    template.append(token.as_str());
    template.append("'>click</a>\n    ");
    template
}

/// The mail telling a user that they were added to a space.
pub fn added_user(name: &String) -> (template: String)
    ensures
        template@ == added_user_body(name@),
{
    let mut template = String::from_str("\n    <h1>You have been added to ");
    template.append(name.as_str());
    template.append(" space</h1>\n    ");
    template
}

/// The reminder mail of an event of a space that takes place today.
pub fn send_reminder(event_name: &String, space_name: &String, description: &String) -> (template: String)
    ensures
        template@ == reminder_body(event_name@, space_name@, description@),
{
    let mut template = String::from_str("\n    <h1>Reminder: ");
    template.append(event_name.as_str());
    template.append("</h1>\n    An event of the ");
    template.append(space_name.as_str());
    template.append(" space takes place today.<br/>\n    ");
    template.append(description.as_str());
    template.append("\n    ");
    template
}

} // verus!
