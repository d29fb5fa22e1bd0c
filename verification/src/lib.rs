//! A small bridge between a host scripting environment and Rust: a logging
//! pass-through and an opaque handle that wraps one identifier.

pub mod logging;
pub mod user;

pub use logging::echo;
pub use user::{new_user, UserModel};
