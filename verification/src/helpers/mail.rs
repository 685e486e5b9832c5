//! The mails the service sends: recipient, recipient's name, subject and
//! HTML body, composed from the account or invitation they concern.
use crate::auth::{create_token, token_for, token_names};
use crate::controllers::space_controller::Invitation;
use crate::helpers::email_template::{
    added_user, added_user_body, forgot_password_email, forgot_password_body, invite_user,
    invite_user_body, reminder_body, send_reminder, verification_body, verification_email,
};
use crate::helpers::socket::{decimal, decimal_string};
use crate::datetime::DateTime;
use crate::helpers::schedule::Reminder;
use crate::model::{Space, User};
use crate::types::opt_view;
use vstd::prelude::*;
use vstd::string::StringExecFns;

verus! {

/// One mail to send.
pub struct Mail {
    pub to: String,
    pub name: String,
    pub subject: String,
    pub body: String,
}

impl View for Mail {
    type V = (Seq<char>, Seq<char>, Seq<char>, Seq<char>);

    open spec fn view(&self) -> (Seq<char>, Seq<char>, Seq<char>, Seq<char>) {
        (self.to@, self.name@, self.subject@, self.body@)
    }
}

/// The mail that asks `u` to verify the account, as recipient, name,
/// subject and body: a link with a token for the user's id, valid for one
/// day; `None` where no token can be made.
pub open spec fn verification_mail_of(u: User, now: DateTime, secret: Seq<char>) -> Option<(Seq<char>, Seq<char>, Seq<char>, Seq<char>)> {
    match token_for(decimal(u.id as int), now, 1, secret) {
        None => None,
        Some(t) => Some((u.email@, u.username@, "Welcome To Spacies"@, verification_body(t))),
    }
}

/// The mail that asks a user to verify the account (see
/// `verification_mail_of`).
pub fn verification_mail(u: &User, now: DateTime, secret: &String) -> (r: Option<Mail>)
    ensures
        opt_view(r) == verification_mail_of(*u, now, secret@),
        r is Some ==> token_names(token_for(decimal(u.id as int), now, 1, secret@)->0, decimal(u.id as int), now, 1, secret@),
{
    let id = decimal_string(u.id as i64);
    match create_token(&id, now, 1, secret) {
        None => None,
        Some(t) => Some(
            Mail {
                to: u.email.clone(),
                name: u.username.clone(),
                subject: String::from_str("Welcome To Spacies"),
                body: verification_email(&t),
            },
        ),
    }
}

/// The mail that tells a user the new password set for the account.
pub fn password_reset_mail(u: &User, password: &String) -> (r: Mail)
    ensures
        r@ == (u.email@, u.username@, "Password Reset"@, forgot_password_body(password@)),
{
    Mail {
        to: u.email.clone(),
        name: u.username.clone(),
        subject: String::from_str("Password Reset"),
        body: forgot_password_email(password),
    }
}

/// The mail an invitation to `space` calls for, as recipient, name, subject
/// and body: a registered user is told that they were added; an unknown
/// address gets a link to register, with a token for the space's id valid
/// for one day (`None` where no token can be made).
pub open spec fn invitation_mail_of(note: Invitation, space: Space, now: DateTime, secret: Seq<char>) -> Option<(Seq<char>, Seq<char>, Seq<char>, Seq<char>)> {
    match note {
        Invitation::Added(u) => Some((u.email@, u.username@, "Added to new space"@, added_user_body(space.spaces_name@))),
        Invitation::Invited(e) => match token_for(decimal(space.id as int), now, 1, secret) {
            None => None,
            Some(t) => Some((e@, "Spacer"@, "Invite to join a Space"@, invite_user_body(space.spaces_name@, t))),
        },
    }
}

/// The mail an invitation to a space calls for (see `invitation_mail_of`).
pub fn invitation_mail(note: &Invitation, space: &Space, now: DateTime, secret: &String) -> (r: Option<Mail>)
    ensures
        opt_view(r) == invitation_mail_of(*note, *space, now, secret@),
        r is Some && note is Invited ==> token_names(token_for(decimal(space.id as int), now, 1, secret@)->0, decimal(space.id as int), now, 1, secret@),
{
    match note {
        Invitation::Added(u) => Some(
            Mail {
                to: u.email.clone(),
                name: u.username.clone(),
                subject: String::from_str("Added to new space"),
                body: added_user(&space.spaces_name),
            },
        ),
        Invitation::Invited(e) => {
            let id = decimal_string(space.id as i64);
            match create_token(&id, now, 1, secret) {
                None => None,
                Some(t) => Some(
                    Mail {
                        to: e.clone(),
                        name: String::from_str("Spacer"),
                        subject: String::from_str("Invite to join a Space"),
                        body: invite_user(&space.spaces_name, &t),
                    },
                ),
            }
        },
    }
}

/// The reminder mails of a due event: one to each member of its space, in
/// the order of the members, with the subject "Event reminder" and the
/// reminder text for the event's name and description and the space's name.
pub fn reminder_mails(r: &Reminder) -> (mails: Vec<Mail>)
    ensures
        mails@.len() == r.members@.len(),
        forall|i: int| 0 <= i < r.members@.len() ==> (#[trigger] mails@[i])@ == (
            r.members@[i].1.email@,
            r.members@[i].1.username@,
            "Event reminder"@,
            reminder_body(r.event.event_name@, r.space.spaces_name@, r.event.event_description@),
        ),
{
    let body = send_reminder(&r.event.event_name, &r.space.spaces_name, &r.event.event_description);
    let mut mails: Vec<Mail> = Vec::new();
    let mut i: usize = 0;
    while i < r.members.len()
        invariant
            i <= r.members@.len(),
            mails@.len() == i,
            body@ == reminder_body(r.event.event_name@, r.space.spaces_name@, r.event.event_description@),
            forall|k: int| 0 <= k < i ==> (#[trigger] mails@[k])@ == (
                r.members@[k].1.email@,
                r.members@[k].1.username@,
                "Event reminder"@,
                body@,
            ),
        decreases r.members@.len() - i,
    {
        let u = &r.members[i].1;
        mails.push(Mail {
            to: u.email.clone(),
            name: u.username.clone(),
            subject: String::from_str("Event reminder"),
            body: body.clone(),
        });
        i = i + 1;
    }
    mails
}

} // verus!
