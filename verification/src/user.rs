//! The user that a membership record refers to.

use vstd::prelude::*;
use vstd::string::*;
use crate::failure::DecodeError;
use crate::raw::{Entries, RawRecord, boolean_at, integer_at, text_at};
use crate::schema::{
    Codec, Entity, Schema, failure_from, optional, optional_text, required, required_boolean,
    required_integer, required_text,
};
use crate::text::{owned, text_model};

verus! {

/// A user of the messaging platform.
#[derive(Debug, Clone, PartialEq, Eq, PartialOrd, Ord, Hash)]
pub struct User {
    /// Unique identifier of the user.
    pub id: i64,
    /// True, if the user is a bot.
    pub is_bot: bool,
    /// The user's first name.
    pub first_name: String,
    /// The user's last name.
    pub last_name: Option<String>,
    /// The user's username.
    pub username: Option<String>,
}

/// The model of a [`User`].
pub struct UserModel {
    pub id: i64,
    pub is_bot: bool,
    pub first_name: Seq<char>,
    pub last_name: Option<Seq<char>>,
    pub username: Option<Seq<char>>,
}

impl View for User {
    type V = UserModel;

    open spec fn view(&self) -> UserModel {
        UserModel {
            id: self.id,
            is_bot: self.is_bot,
            first_name: self.first_name@,
            last_name: text_model(self.last_name),
            username: text_model(self.username),
        }
    }
}

impl Entity for User {
    open spec fn schema() -> Schema {
        seq![
            required("id"@, Codec::Integer),
            required("is_bot"@, Codec::Boolean),
            required("first_name"@, Codec::Text),
            optional("last_name"@, Codec::Text),
            optional("username"@, Codec::Text),
        ]
    }

    open spec fn value(rec: Entries) -> UserModel {
        UserModel {
            id: integer_at(rec, "id"@).unwrap(),
            is_bot: boolean_at(rec, "is_bot"@).unwrap(),
            first_name: text_at(rec, "first_name"@).unwrap(),
            last_name: text_at(rec, "last_name"@),
            username: text_at(rec, "username"@),
        }
    }

    fn decode(rec: &RawRecord) -> (decoded: Result<User, DecodeError>) {
        proof {
            reveal_with_fuel(failure_from, 6);
        }
        let id = required_integer(rec, "id")?;
        let is_bot = required_boolean(rec, "is_bot")?;
        let first_name = required_text(rec, "first_name")?;
        let last_name = optional_text(rec, "last_name")?;
        let username = optional_text(rec, "username")?;
        Ok(
            User {
                id,
                is_bot,
                first_name: String::from_str(first_name),
                last_name: owned(last_name),
                username: owned(username),
            },
        )
    }
}

} // verus!
