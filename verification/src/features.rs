//! One module per Mastodon capability, each owning its state, messages and
//! the decisions its view and update make.

pub mod accounts;
pub mod compose;
pub mod hashtags;
pub mod lists;
pub mod notifications;
pub mod search;
pub mod settings;
pub mod status;
pub mod timeline;
