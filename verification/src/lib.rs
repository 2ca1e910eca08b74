//! The request-handling logic of the Dispatch inbox and chat server: what each
//! endpoint and each chat event decides, with the database, the clock, the
//! password hasher and the network left to the caller or to trusted wrappers.

pub mod text;
pub mod clock;
pub mod timefmt;
pub mod object_id;
pub mod password;
pub mod reply;
pub mod chat_send;
pub mod chat_events;
pub mod accounts;
pub mod chat_directory;
pub mod inbox;
