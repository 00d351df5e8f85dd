//! Permissive decoding of chat-membership records.
//!
//! A messaging platform reports who is in a chat, and in what standing, as
//! loosely typed records: maps from field names to strings, booleans,
//! integers and nested records. This library turns such records into typed
//! values. It is built to survive growth of the wire format: a status
//! literal that is not known is kept in a catch-all variant, a key that no
//! schema names is ignored, and an optional field that is absent reads as
//! absent. Only a missing required field, or a value of the wrong shape,
//! makes a record fail, and the failure names the field by its path.

pub mod chat;
pub mod failure;
pub mod invite;
pub mod member;
pub mod permissive;
pub mod raw;
pub mod schema;
pub mod status;
pub mod text;
pub mod update;
pub mod user;

pub use chat::Chat;
pub use failure::{DecodeError, Shape};
pub use invite::ChatInviteLink;
pub use member::ChatMember;
pub use raw::{RawRecord, RawValue};
pub use schema::Entity;
pub use status::ChatMemberStatus;
pub use update::ChatMemberUpdated;
pub use user::User;
