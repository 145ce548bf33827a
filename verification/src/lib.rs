//! Decision logic of a news bot that watches War Thunder sources and
//! forwards new posts to Discord webhooks: which urls were already seen,
//! which webhooks a post is meant for, and what text is sent.

pub mod text;
pub mod webhooks;
pub mod webhook_handler;
pub mod recent;
pub mod forum_news;
pub mod start_profile;
