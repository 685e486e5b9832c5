//! Spacies: the data model and request logic of a team-workspace service
//! (users, spaces, channels, chats, events, projects, tasks, mail folders and
//! file assets), written as verified operations over an in-memory relational
//! store.
pub mod text;
pub mod datetime;
pub mod model;
pub mod table;
pub mod types;
pub mod store;
pub mod insert;
pub mod queries;
pub mod helpers;
pub mod controllers;
pub mod paginate;
pub mod auth;
pub mod laws;
