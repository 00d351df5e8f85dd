//! The chat that a membership record refers to.

use vstd::prelude::*;
use vstd::string::*;
use crate::failure::DecodeError;
use crate::raw::{Entries, RawRecord, integer_at, text_at};
use crate::schema::{
    Codec, Entity, Schema, failure_from, optional, optional_text, required, required_integer,
    required_text,
};
use crate::text::{owned, text_model};

verus! {

/// A chat of the messaging platform.
#[derive(Debug, Clone, PartialEq, Eq, PartialOrd, Ord, Hash)]
pub struct Chat {
    /// Unique identifier of the chat.
    pub id: i64,
    /// The kind of chat, as the platform names it under the key `type`. New
    /// kinds may appear, so the literal is kept as it was received.
    pub kind: String,
    /// The chat's title.
    pub title: Option<String>,
    /// The chat's username.
    pub username: Option<String>,
}

/// The model of a [`Chat`].
pub struct ChatModel {
    pub id: i64,
    pub kind: Seq<char>,
    pub title: Option<Seq<char>>,
    pub username: Option<Seq<char>>,
}

impl View for Chat {
    type V = ChatModel;

    open spec fn view(&self) -> ChatModel {
        ChatModel {
            id: self.id,
            kind: self.kind@,
            title: text_model(self.title),
            username: text_model(self.username),
        }
    }
}

impl Entity for Chat {
    open spec fn schema() -> Schema {
        seq![
            required("id"@, Codec::Integer),
            required("type"@, Codec::Text),
            optional("title"@, Codec::Text),
            optional("username"@, Codec::Text),
        ]
    }

    open spec fn value(rec: Entries) -> ChatModel {
        ChatModel {
            id: integer_at(rec, "id"@).unwrap(),
            kind: text_at(rec, "type"@).unwrap(),
            title: text_at(rec, "title"@),
            username: text_at(rec, "username"@),
        }
    }

    fn decode(rec: &RawRecord) -> (decoded: Result<Chat, DecodeError>) {
        proof {
            reveal_with_fuel(failure_from, 5);
        }
        let id = required_integer(rec, "id")?;
        let kind = required_text(rec, "type")?;
        let title = optional_text(rec, "title")?;
        let username = optional_text(rec, "username")?;
        Ok(Chat { id, kind: String::from_str(kind), title: owned(title), username: owned(username) })
    }
}

} // verus!
