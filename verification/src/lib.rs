//! A registry of short-lived sessions for anonymous users who are known only
//! by a display name.

pub mod clock;
pub mod cookie;
pub mod identifier;
pub mod laws;
pub mod model;
pub mod reaper;
pub mod registry;
pub mod session;
pub mod user;
pub mod username;
