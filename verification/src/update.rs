//! Changes of a member's standing in a chat.

use vstd::prelude::*;
use crate::chat::{Chat, ChatModel};
use crate::failure::DecodeError;
use crate::invite::{ChatInviteLink, InviteLinkModel};
use crate::member::{ChatMember, ChatMemberModel};
use crate::raw::{Entries, RawRecord, Value, integer_at, lookup, record_at};
use crate::schema::{
    Codec, Entity, Schema, failure_from, first_failure, fits_exactly_when_every_field_fits,
    fits_field, optional, optional_nested, required, required_integer, required_nested,
};
use crate::status::{Status, is_known, status_of};
use crate::user::{User, UserModel};

verus! {

/// A change of a chat member's status.
#[derive(Debug, Clone, PartialEq, PartialOrd, Eq, Ord, Hash)]
pub struct ChatMemberUpdated {
    /// Chat the user belongs to.
    pub chat: Chat,
    /// Performer of the action which resulted in the change.
    pub from: User,
    /// Date the change was done, Unix time.
    pub date: i64,
    /// Previous information about the chat member.
    pub old_chat_member: ChatMember,
    /// New information about the chat member.
    pub new_chat_member: ChatMember,
    /// Chat invite link which was used by the user to join the chat; for
    /// joining by invite link events only.
    pub invite_link: Option<ChatInviteLink>,
}

/// The model of a [`ChatMemberUpdated`].
pub struct ChatMemberUpdatedModel {
    pub chat: ChatModel,
    pub from: UserModel,
    pub date: i64,
    pub old_chat_member: ChatMemberModel,
    pub new_chat_member: ChatMemberModel,
    pub invite_link: Option<InviteLinkModel>,
}

/// The model of an invite link that may be absent.
pub open spec fn invite_link_model(link: Option<ChatInviteLink>) -> Option<InviteLinkModel> {
    match link {
        Some(l) => Some(l@),
        None => None,
    }
}

/// The invite link that the nested record under `name` gives, if the record
/// holds one there.
pub open spec fn invite_link_at(rec: Entries, name: Seq<char>) -> Option<InviteLinkModel> {
    match record_at(rec, name) {
        Some(nested) => Some(ChatInviteLink::value(nested)),
        None => None,
    }
}

impl View for ChatMemberUpdated {
    type V = ChatMemberUpdatedModel;

    open spec fn view(&self) -> ChatMemberUpdatedModel {
        ChatMemberUpdatedModel {
            chat: self.chat@,
            from: self.from@,
            date: self.date,
            old_chat_member: self.old_chat_member@,
            new_chat_member: self.new_chat_member@,
            invite_link: invite_link_model(self.invite_link),
        }
    }
}

impl Entity for ChatMemberUpdated {
    open spec fn schema() -> Schema {
        seq![
            required("chat"@, Codec::Record(Chat::schema())),
            required("from"@, Codec::Record(User::schema())),
            required("date"@, Codec::Integer),
            required("old_chat_member"@, Codec::Record(ChatMember::schema())),
            required("new_chat_member"@, Codec::Record(ChatMember::schema())),
            optional("invite_link"@, Codec::Record(ChatInviteLink::schema())),
        ]
    }

    open spec fn value(rec: Entries) -> ChatMemberUpdatedModel {
        ChatMemberUpdatedModel {
            chat: Chat::value(record_at(rec, "chat"@).unwrap()),
            from: User::value(record_at(rec, "from"@).unwrap()),
            date: integer_at(rec, "date"@).unwrap(),
            old_chat_member: ChatMember::value(record_at(rec, "old_chat_member"@).unwrap()),
            new_chat_member: ChatMember::value(record_at(rec, "new_chat_member"@).unwrap()),
            invite_link: invite_link_at(rec, "invite_link"@),
        }
    }

    fn decode(rec: &RawRecord) -> (decoded: Result<ChatMemberUpdated, DecodeError>) {
        proof {
            reveal_with_fuel(failure_from, 7);
        }
        let chat = required_nested::<Chat>(rec, "chat")?;
        let from = required_nested::<User>(rec, "from")?;
        let date = required_integer(rec, "date")?;
        let old_chat_member = required_nested::<ChatMember>(rec, "old_chat_member")?;
        let new_chat_member = required_nested::<ChatMember>(rec, "new_chat_member")?;
        let invite_link = optional_nested::<ChatInviteLink>(rec, "invite_link")?;
        Ok(ChatMemberUpdated { chat, from, date, old_chat_member, new_chat_member, invite_link })
    }
}

/// An update whose members have statuses that this library does not know
/// is decoded like any other: where the record fits, each member has the
/// status that its literal stands for, and a literal that is not known is
/// kept in the catch-all variant.
pub proof fn unknown_member_status_is_kept(rec: Entries, old: Entries, raw: Seq<char>)
    requires
        first_failure(rec, ChatMemberUpdated::schema()) is None,
        lookup(rec, "old_chat_member"@) == Some(Value::Record(old)),
        lookup(old, "status"@) == Some(Value::Text(raw)),
    ensures
        first_failure(old, ChatMember::schema()) is None,
        ChatMemberUpdated::value(rec).old_chat_member.status == status_of(raw),
        !is_known(raw) ==> ChatMemberUpdated::value(rec).old_chat_member.status
            == Status::Unrecognized(raw),
{
    let schema = ChatMemberUpdated::schema();
    fits_exactly_when_every_field_fits(rec, schema);
    assert(fits_field(rec, schema[3]));
}

/// An update without an invite link is decoded with the link absent.
pub proof fn invite_link_may_be_absent(rec: Entries)
    requires
        lookup(rec, "invite_link"@) is None,
    ensures
        fits_field(rec, optional("invite_link"@, Codec::Record(ChatInviteLink::schema()))),
        ChatMemberUpdated::value(rec).invite_link is None,
{
}

} // verus!
