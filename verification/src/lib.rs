//! Authentication decisions for a multi-user system: credential checks,
//! the one-time-code second factor and session tokens.

pub mod credentials;
pub mod error;
pub mod laws;
pub mod session;
pub mod token;
pub mod users;
