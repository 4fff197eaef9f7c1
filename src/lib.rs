//! Read-through aggregation core of the bot backend: a keyset cursor order,
//! an expiring key/value cache, a pagination walker, a cache-aside
//! orchestrator, the render requests handed to the screenshot producer, and
//! the command catalogue and account models.

pub mod cursor;
pub mod store;
pub mod error;
pub mod walk;
pub mod orchestrator;
pub mod keys;
pub mod text;
pub mod render;
pub mod silly_command;
pub mod user;
