//! A client for a remote JSON user directory: it builds request URLs, decodes
//! and encodes user records, and decides the outcome of a fetch.
mod error;
mod repo;
mod user;

pub use error::FetchError;
pub use repo::{UserRepo, DEFAULT_BASE_URL, USERS_FIRST_PATH};
pub use user::{
    json_name_member, json_record, json_string_literal, needs_escape, User,
};
