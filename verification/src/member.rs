//! Members of a chat.

use vstd::prelude::*;
use crate::failure::{DecodeError, Failure};
use crate::raw::{Entries, RawRecord, Value, boolean_at, integer_at, lookup, record_at, text_at};
use crate::schema::{
    Codec, Entity, Schema, failure_from, field_failure, first_failure, fits_exactly_when_every_field_fits,
    fits_field, optional, optional_boolean, optional_integer, required, required_nested,
    required_text,
};
use crate::status::{ChatMemberStatus, Status, is_known, status_of};
use crate::user::{User, UserModel};

verus! {

/// Information about one member of a chat.
///
/// Which of the optional attributes the platform sends depends on the
/// member's status. That is not enforced here: each of them is present or
/// absent on its own, and an absent one is never filled in.
#[derive(Debug, Clone, PartialEq, PartialOrd, Eq, Ord, Hash)]
pub struct ChatMember {
    /// Information about the user.
    pub user: User,
    /// The member's status in the chat.
    pub status: ChatMemberStatus,
    /// Restricted and kicked only. Date when restrictions will be lifted for
    /// this user, Unix time.
    pub until_date: Option<i64>,
    /// Administrators only. True, if the bot is allowed to edit administrator
    /// privileges of that user.
    pub can_be_edited: Option<bool>,
    /// Administrators only. True, if the administrator can change the chat
    /// title, photo and other settings.
    pub can_change_info: Option<bool>,
    /// Administrators only. True, if the administrator can post in the
    /// channel; channels only.
    pub can_post_messages: Option<bool>,
    /// Administrators only. True, if the administrator can edit messages of
    /// other users and can pin messages; channels only.
    pub can_edit_messages: Option<bool>,
    /// Administrators only. True, if the administrator can delete messages of
    /// other users.
    pub can_delete_messages: Option<bool>,
    /// Administrators only. True, if the administrator can invite new users to
    /// the chat.
    pub can_invite_users: Option<bool>,
    /// Administrators only. True, if the administrator can restrict, ban or
    /// unban chat members.
    pub can_restrict_members: Option<bool>,
    /// Administrators only. True, if the administrator can pin messages;
    /// supergroups only.
    pub can_pin_messages: Option<bool>,
    /// Administrators only. True, if the administrator can add new
    /// administrators with a subset of their own privileges or demote
    /// administrators that they have promoted.
    pub can_promote_members: Option<bool>,
    /// Restricted only. True, if the user can send text messages, contacts,
    /// locations and venues.
    pub can_send_messages: Option<bool>,
    /// Restricted only. True, if the user can send audios, documents, photos,
    /// videos, video notes and voice notes.
    pub can_send_media_messages: Option<bool>,
    /// Restricted only. True, if the user can send animations, games, stickers
    /// and use inline bots.
    pub can_send_other_messages: Option<bool>,
    /// Restricted only. True, if the user may add web page previews to their
    /// messages.
    pub can_add_web_page_previews: Option<bool>,
}

/// The model of a [`ChatMember`].
pub struct ChatMemberModel {
    pub user: UserModel,
    pub status: Status,
    pub until_date: Option<i64>,
    pub can_be_edited: Option<bool>,
    pub can_change_info: Option<bool>,
    pub can_post_messages: Option<bool>,
    pub can_edit_messages: Option<bool>,
    pub can_delete_messages: Option<bool>,
    pub can_invite_users: Option<bool>,
    pub can_restrict_members: Option<bool>,
    pub can_pin_messages: Option<bool>,
    pub can_promote_members: Option<bool>,
    pub can_send_messages: Option<bool>,
    pub can_send_media_messages: Option<bool>,
    pub can_send_other_messages: Option<bool>,
    pub can_add_web_page_previews: Option<bool>,
}

impl View for ChatMember {
    type V = ChatMemberModel;

    open spec fn view(&self) -> ChatMemberModel {
        ChatMemberModel {
            user: self.user@,
            status: self.status@,
            until_date: self.until_date,
            can_be_edited: self.can_be_edited,
            can_change_info: self.can_change_info,
            can_post_messages: self.can_post_messages,
            can_edit_messages: self.can_edit_messages,
            can_delete_messages: self.can_delete_messages,
            can_invite_users: self.can_invite_users,
            can_restrict_members: self.can_restrict_members,
            can_pin_messages: self.can_pin_messages,
            can_promote_members: self.can_promote_members,
            can_send_messages: self.can_send_messages,
            can_send_media_messages: self.can_send_media_messages,
            can_send_other_messages: self.can_send_other_messages,
            can_add_web_page_previews: self.can_add_web_page_previews,
        }
    }
}

impl Entity for ChatMember {
    open spec fn schema() -> Schema {
        seq![
            required("user"@, Codec::Record(User::schema())),
            required("status"@, Codec::Text),
            optional("until_date"@, Codec::Integer),
            optional("can_be_edited"@, Codec::Boolean),
            optional("can_change_info"@, Codec::Boolean),
            optional("can_post_messages"@, Codec::Boolean),
            optional("can_edit_messages"@, Codec::Boolean),
            optional("can_delete_messages"@, Codec::Boolean),
            optional("can_invite_users"@, Codec::Boolean),
            optional("can_restrict_members"@, Codec::Boolean),
            optional("can_pin_messages"@, Codec::Boolean),
            optional("can_promote_members"@, Codec::Boolean),
            optional("can_send_messages"@, Codec::Boolean),
            optional("can_send_media_messages"@, Codec::Boolean),
            optional("can_send_other_messages"@, Codec::Boolean),
            optional("can_add_web_page_previews"@, Codec::Boolean),
        ]
    }

    open spec fn value(rec: Entries) -> ChatMemberModel {
        ChatMemberModel {
            user: User::value(record_at(rec, "user"@).unwrap()),
            status: status_of(text_at(rec, "status"@).unwrap()),
            until_date: integer_at(rec, "until_date"@),
            can_be_edited: boolean_at(rec, "can_be_edited"@),
            can_change_info: boolean_at(rec, "can_change_info"@),
            can_post_messages: boolean_at(rec, "can_post_messages"@),
            can_edit_messages: boolean_at(rec, "can_edit_messages"@),
            can_delete_messages: boolean_at(rec, "can_delete_messages"@),
            can_invite_users: boolean_at(rec, "can_invite_users"@),
            can_restrict_members: boolean_at(rec, "can_restrict_members"@),
            can_pin_messages: boolean_at(rec, "can_pin_messages"@),
            can_promote_members: boolean_at(rec, "can_promote_members"@),
            can_send_messages: boolean_at(rec, "can_send_messages"@),
            can_send_media_messages: boolean_at(rec, "can_send_media_messages"@),
            can_send_other_messages: boolean_at(rec, "can_send_other_messages"@),
            can_add_web_page_previews: boolean_at(rec, "can_add_web_page_previews"@),
        }
    }

    fn decode(rec: &RawRecord) -> (decoded: Result<ChatMember, DecodeError>) {
        proof {
            reveal_with_fuel(failure_from, 17);
        }
        let user = required_nested::<User>(rec, "user")?;
        let status = required_text(rec, "status")?;
        let until_date = optional_integer(rec, "until_date")?;
        let can_be_edited = optional_boolean(rec, "can_be_edited")?;
        let can_change_info = optional_boolean(rec, "can_change_info")?;
        let can_post_messages = optional_boolean(rec, "can_post_messages")?;
        let can_edit_messages = optional_boolean(rec, "can_edit_messages")?;
        let can_delete_messages = optional_boolean(rec, "can_delete_messages")?;
        let can_invite_users = optional_boolean(rec, "can_invite_users")?;
        let can_restrict_members = optional_boolean(rec, "can_restrict_members")?;
        let can_pin_messages = optional_boolean(rec, "can_pin_messages")?;
        let can_promote_members = optional_boolean(rec, "can_promote_members")?;
        let can_send_messages = optional_boolean(rec, "can_send_messages")?;
        let can_send_media_messages = optional_boolean(rec, "can_send_media_messages")?;
        let can_send_other_messages = optional_boolean(rec, "can_send_other_messages")?;
        let can_add_web_page_previews = optional_boolean(rec, "can_add_web_page_previews")?;
        Ok(
            ChatMember {
                user,
                status: ChatMemberStatus::decode(status),
                until_date,
                can_be_edited,
                can_change_info,
                can_post_messages,
                can_edit_messages,
                can_delete_messages,
                can_invite_users,
                can_restrict_members,
                can_pin_messages,
                can_promote_members,
                can_send_messages,
                can_send_media_messages,
                can_send_other_messages,
                can_add_web_page_previews,
            },
        )
    }
}

/// A record that holds a user and a status, and none of the optional
/// attributes, is decoded, and each attribute reads as absent.
pub proof fn optional_attributes_may_be_absent(rec: Entries)
    requires
        fits_field(rec, required("user"@, Codec::Record(User::schema()))),
        fits_field(rec, required("status"@, Codec::Text)),
        forall|i: int|
            0 <= i < ChatMember::schema().len() && !ChatMember::schema()[i].required ==> lookup(
                rec,
                #[trigger] ChatMember::schema()[i].name,
            ) is None,
    ensures
        first_failure(rec, ChatMember::schema()) is None,
        ({
            let member = ChatMember::value(rec);
            &&& member.until_date is None
            &&& member.can_be_edited is None
            &&& member.can_change_info is None
            &&& member.can_post_messages is None
            &&& member.can_edit_messages is None
            &&& member.can_delete_messages is None
            &&& member.can_invite_users is None
            &&& member.can_restrict_members is None
            &&& member.can_pin_messages is None
            &&& member.can_promote_members is None
            &&& member.can_send_messages is None
            &&& member.can_send_media_messages is None
            &&& member.can_send_other_messages is None
            &&& member.can_add_web_page_previews is None
        }),
{
    let schema = ChatMember::schema();
    fits_exactly_when_every_field_fits(rec, schema);
    assert forall|i: int| 0 <= i < schema.len() implies #[trigger] fits_field(rec, schema[i]) by {
        if !schema[i].required {
            assert(lookup(rec, schema[i].name) is None);
        }
    }
    assert(schema[2].name == "until_date"@);
    assert(schema[3].name == "can_be_edited"@);
    assert(schema[4].name == "can_change_info"@);
    assert(schema[5].name == "can_post_messages"@);
    assert(schema[6].name == "can_edit_messages"@);
    assert(schema[7].name == "can_delete_messages"@);
    assert(schema[8].name == "can_invite_users"@);
    assert(schema[9].name == "can_restrict_members"@);
    assert(schema[10].name == "can_pin_messages"@);
    assert(schema[11].name == "can_promote_members"@);
    assert(schema[12].name == "can_send_messages"@);
    assert(schema[13].name == "can_send_media_messages"@);
    assert(schema[14].name == "can_send_other_messages"@);
    assert(schema[15].name == "can_add_web_page_previews"@);
}

/// In a member that was decoded, an attribute is absent exactly when the
/// record has no entry for it. An entry that says `false` reads as present
/// and `false`: nothing is filled in and nothing is dropped.
pub proof fn absent_attribute_reads_as_absent(rec: Entries)
    requires
        first_failure(rec, ChatMember::schema()) is None,
    ensures
        ({
            let member = ChatMember::value(rec);
            &&& member.until_date is None <==> lookup(rec, "until_date"@) is None
            &&& member.can_be_edited is None <==> lookup(rec, "can_be_edited"@) is None
            &&& member.can_change_info is None <==> lookup(rec, "can_change_info"@) is None
            &&& member.can_post_messages is None <==> lookup(rec, "can_post_messages"@) is None
            &&& member.can_edit_messages is None <==> lookup(rec, "can_edit_messages"@) is None
            &&& member.can_delete_messages is None <==> lookup(rec, "can_delete_messages"@) is None
            &&& member.can_invite_users is None <==> lookup(rec, "can_invite_users"@) is None
            &&& member.can_restrict_members is None <==> lookup(rec, "can_restrict_members"@) is None
            &&& member.can_pin_messages is None <==> lookup(rec, "can_pin_messages"@) is None
            &&& member.can_promote_members is None <==> lookup(rec, "can_promote_members"@) is None
            &&& member.can_send_messages is None <==> lookup(rec, "can_send_messages"@) is None
            &&& member.can_send_media_messages is None <==> lookup(rec, "can_send_media_messages"@) is None
            &&& member.can_send_other_messages is None <==> lookup(rec, "can_send_other_messages"@) is None
            &&& member.can_add_web_page_previews is None <==> lookup(rec, "can_add_web_page_previews"@) is None
        }),
        ({
            let member = ChatMember::value(rec);
            &&& member.until_date == integer_at(rec, "until_date"@)
            &&& member.can_be_edited == boolean_at(rec, "can_be_edited"@)
            &&& member.can_change_info == boolean_at(rec, "can_change_info"@)
            &&& member.can_post_messages == boolean_at(rec, "can_post_messages"@)
            &&& member.can_edit_messages == boolean_at(rec, "can_edit_messages"@)
            &&& member.can_delete_messages == boolean_at(rec, "can_delete_messages"@)
            &&& member.can_invite_users == boolean_at(rec, "can_invite_users"@)
            &&& member.can_restrict_members == boolean_at(rec, "can_restrict_members"@)
            &&& member.can_pin_messages == boolean_at(rec, "can_pin_messages"@)
            &&& member.can_promote_members == boolean_at(rec, "can_promote_members"@)
            &&& member.can_send_messages == boolean_at(rec, "can_send_messages"@)
            &&& member.can_send_media_messages == boolean_at(rec, "can_send_media_messages"@)
            &&& member.can_send_other_messages == boolean_at(rec, "can_send_other_messages"@)
            &&& member.can_add_web_page_previews == boolean_at(rec, "can_add_web_page_previews"@)
        }),
{
    let schema = ChatMember::schema();
    fits_exactly_when_every_field_fits(rec, schema);
    assert(fits_field(rec, schema[2]));
    assert(fits_field(rec, schema[3]));
    assert(fits_field(rec, schema[4]));
    assert(fits_field(rec, schema[5]));
    assert(fits_field(rec, schema[6]));
    assert(fits_field(rec, schema[7]));
    assert(fits_field(rec, schema[8]));
    assert(fits_field(rec, schema[9]));
    assert(fits_field(rec, schema[10]));
    assert(fits_field(rec, schema[11]));
    assert(fits_field(rec, schema[12]));
    assert(fits_field(rec, schema[13]));
    assert(fits_field(rec, schema[14]));
    assert(fits_field(rec, schema[15]));
}

/// A record without a `user` fails, and the failure names `user`.
pub proof fn missing_user_fails(rec: Entries)
    requires
        lookup(rec, "user"@) is None,
    ensures
        first_failure(rec, ChatMember::schema()) == Some(Failure::MissingField("user"@)),
{
    let schema = ChatMember::schema();
    assert(schema[0] == required("user"@, Codec::Record(User::schema())));
    assert(field_failure(rec, schema[0]) == Some(Failure::MissingField("user"@)));
}

/// A record with a sound `user` and without a `status` fails, and the
/// failure names `status`.
pub proof fn missing_status_fails(rec: Entries)
    requires
        fits_field(rec, required("user"@, Codec::Record(User::schema()))),
        lookup(rec, "status"@) is None,
    ensures
        first_failure(rec, ChatMember::schema()) == Some(Failure::MissingField("status"@)),
{
    reveal_with_fuel(failure_from, 2);
    let schema = ChatMember::schema();
    assert(schema[0] == required("user"@, Codec::Record(User::schema())));
    assert(schema[1] == required("status"@, Codec::Text));
    assert(field_failure(rec, schema[1]) == Some(Failure::MissingField("status"@)));
}

/// Every string is a status: whatever literal a record holds under
/// `status`, reading the field does not fail, and a member that is decoded
/// from the record has the status that the literal stands for.
pub proof fn any_status_literal_fits(rec: Entries, raw: Seq<char>)
    requires
        lookup(rec, "status"@) == Some(Value::Text(raw)),
    ensures
        fits_field(rec, required("status"@, Codec::Text)),
        ChatMember::value(rec).status == status_of(raw),
        !is_known(raw) ==> ChatMember::value(rec).status == Status::Unrecognized(raw),
{
}

} // verus!
