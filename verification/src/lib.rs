//! Authentication support: the default in-memory session store, password
//! hashing for new accounts, and the error type shared by all of them.

pub mod program;
pub mod error;
pub mod session;
pub mod user;
