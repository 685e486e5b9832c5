//! Helpers of the service: password hashing, secret encryption, mail bodies,
//! uploaded-file names and live-update channel names.
pub mod bcrypt;
pub mod email_template;
pub mod encrypt;
pub mod socket;
pub mod uploads;
pub mod schedule;
pub mod mail;
