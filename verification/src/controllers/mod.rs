//! The request logic of the service, one module per area, each operation a
//! transaction on the store.
pub mod user_controller;
pub mod space_controller;
pub mod channel_controller;
pub mod channel_user_controller;
pub mod event_controller;
pub mod project_controller;
pub mod task_controller;
pub mod user_task_controller;
pub mod mail_user_controller;
pub mod channel_chat_controller;
pub mod chat_thread_controller;
pub mod user_chat_controller;
pub mod asset_content_controller;
