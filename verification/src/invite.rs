//! Invite links of a chat.

use vstd::prelude::*;
use vstd::string::*;
use crate::failure::DecodeError;
use crate::raw::{Entries, RawRecord, boolean_at, integer_at, lookup, record_at, text_at};
use crate::schema::{
    Codec, Entity, Schema, failure_from, fits_field, optional, optional_integer, required,
    required_boolean, required_nested, required_text,
};
use crate::user::{User, UserModel};

verus! {

/// An invite link of a chat.
#[derive(Debug, Clone, PartialEq, PartialOrd, Eq, Ord, Hash)]
pub struct ChatInviteLink {
    /// The invite link. If the link was created by another chat administrator,
    /// the second part of the link is replaced with "...".
    pub invite_link: String,
    /// Creator of the link.
    pub creator: User,
    /// True, if the link is primary.
    pub is_primary: bool,
    /// True, if the link is revoked.
    pub is_revoked: bool,
    /// Point in time (Unix timestamp) when the link will expire or has
    /// expired.
    pub expire_date: Option<i64>,
    /// Maximum number of users that can be members of the chat at once after
    /// joining it through this link. The platform sends 1 to 99999; the
    /// range is not checked here.
    pub member_limit: Option<i64>,
}

/// The model of a [`ChatInviteLink`].
pub struct InviteLinkModel {
    pub invite_link: Seq<char>,
    pub creator: UserModel,
    pub is_primary: bool,
    pub is_revoked: bool,
    pub expire_date: Option<i64>,
    pub member_limit: Option<i64>,
}

impl View for ChatInviteLink {
    type V = InviteLinkModel;

    open spec fn view(&self) -> InviteLinkModel {
        InviteLinkModel {
            invite_link: self.invite_link@,
            creator: self.creator@,
            is_primary: self.is_primary,
            is_revoked: self.is_revoked,
            expire_date: self.expire_date,
            member_limit: self.member_limit,
        }
    }
}

impl Entity for ChatInviteLink {
    open spec fn schema() -> Schema {
        seq![
            required("invite_link"@, Codec::Text),
            required("creator"@, Codec::Record(User::schema())),
            required("is_primary"@, Codec::Boolean),
            required("is_revoked"@, Codec::Boolean),
            optional("expire_date"@, Codec::Integer),
            optional("member_limit"@, Codec::Integer),
        ]
    }

    open spec fn value(rec: Entries) -> InviteLinkModel {
        InviteLinkModel {
            invite_link: text_at(rec, "invite_link"@).unwrap(),
            creator: User::value(record_at(rec, "creator"@).unwrap()),
            is_primary: boolean_at(rec, "is_primary"@).unwrap(),
            is_revoked: boolean_at(rec, "is_revoked"@).unwrap(),
            expire_date: integer_at(rec, "expire_date"@),
            member_limit: integer_at(rec, "member_limit"@),
        }
    }

    fn decode(rec: &RawRecord) -> (decoded: Result<ChatInviteLink, DecodeError>) {
        proof {
            reveal_with_fuel(failure_from, 7);
        }
        let invite_link = required_text(rec, "invite_link")?;
        let creator = required_nested::<User>(rec, "creator")?;
        let is_primary = required_boolean(rec, "is_primary")?;
        let is_revoked = required_boolean(rec, "is_revoked")?;
        let expire_date = optional_integer(rec, "expire_date")?;
        let member_limit = optional_integer(rec, "member_limit")?;
        Ok(
            ChatInviteLink {
                invite_link: String::from_str(invite_link),
                creator,
                is_primary,
                is_revoked,
                expire_date,
                member_limit,
            },
        )
    }
}

/// A link without a member limit is read with the limit absent: nothing is
/// put in its place, and the field does not make the record fail.
pub proof fn member_limit_may_be_absent(rec: Entries)
    requires
        lookup(rec, "member_limit"@) is None,
    ensures
        fits_field(rec, optional("member_limit"@, Codec::Integer)),
        ChatInviteLink::value(rec).member_limit is None,
{
}

} // verus!
