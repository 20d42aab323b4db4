//! Shared chat types and their hand-written JSON codecs.
//!
//! Every codable type implements [`json::ToJsonnable`] and [`json::FromJsonnable`],
//! which turn its values into a [`value::Value`] tree and back, field by field,
//! and report the first problem met as a [`error::MarshalError`].

pub mod address;
pub mod error;
pub mod json;
pub mod message;
pub mod primitive;
pub mod sequence;
pub mod timestamp;
pub mod user;
pub mod value;

pub use crate::error::{Kind, MarshalError};
pub use crate::message::{ChatMessage, MessageModel};
pub use crate::timestamp::{Timestamp, NSEC_PER_SEC};
pub use crate::user::{ChatUser, UserModel};
pub use crate::value::{Tree, Value};
