//! A read-only gateway that publishes one folder of a remote storage
//! provider: a listing page and the bytes of a file looked up by name.

pub mod conversation;
pub mod gateway;
pub mod listing;
pub mod percent;
pub mod query;
pub mod record;
pub mod reply;
pub mod route;
