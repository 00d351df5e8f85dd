//! The status of a member in a chat.

use std::cmp::Ordering;
use vstd::prelude::*;
use vstd::string::*;
use crate::permissive::find_literal;
use crate::text::{precedes, same_text, strings_are_totally_ordered, text_less};

verus! {

/// The model of a member's status.
pub enum Status {
    Creator,
    Administrator,
    Member,
    Left,
    Kicked,
    /// A status that is not among the known ones, with its literal.
    Unrecognized(Seq<char>),
}

/// The member's status in the chat.
#[derive(Debug, Clone, Eq, Ord, Hash)]
pub enum ChatMemberStatus {
    Creator,
    Administrator,
    Member,
    Left,
    Kicked,
    /// A status that this library does not know, with the literal as it was
    /// received.
    Unrecognized(String),
}

impl View for ChatMemberStatus {
    type V = Status;

    open spec fn view(&self) -> Status {
        match self {
            ChatMemberStatus::Creator => Status::Creator,
            ChatMemberStatus::Administrator => Status::Administrator,
            ChatMemberStatus::Member => Status::Member,
            ChatMemberStatus::Left => Status::Left,
            ChatMemberStatus::Kicked => Status::Kicked,
            ChatMemberStatus::Unrecognized(raw) => Status::Unrecognized(raw@),
        }
    }
}

impl PartialEq for ChatMemberStatus {
    /// Two statuses are equal where they are the same variant and, for the
    /// catch-all, hold the same literal.
    fn eq(&self, other: &ChatMemberStatus) -> (same: bool) {
        match (self, other) {
            (ChatMemberStatus::Creator, ChatMemberStatus::Creator) => true,
            (ChatMemberStatus::Administrator, ChatMemberStatus::Administrator) => true,
            (ChatMemberStatus::Member, ChatMemberStatus::Member) => true,
            (ChatMemberStatus::Left, ChatMemberStatus::Left) => true,
            (ChatMemberStatus::Kicked, ChatMemberStatus::Kicked) => true,
            (ChatMemberStatus::Unrecognized(a), ChatMemberStatus::Unrecognized(b)) => same_text(
                a.as_str(),
                b.as_str(),
            ),
            _ => false,
        }
    }
}

impl vstd::std_specs::cmp::PartialEqSpecImpl for ChatMemberStatus {
    open spec fn obeys_eq_spec() -> bool {
        true
    }

    open spec fn eq_spec(&self, other: &ChatMemberStatus) -> bool {
        self@ == other@
    }
}

/// How two statuses are ordered: by variant, in the order in which the
/// variants are declared, and two catch-alls by their literals.
pub open spec fn status_order(a: Status, b: Status) -> Ordering {
    if a.rank() < b.rank() {
        Ordering::Less
    } else if a.rank() > b.rank() {
        Ordering::Greater
    } else {
        match (a, b) {
            (Status::Unrecognized(x), Status::Unrecognized(y)) => if x == y {
                Ordering::Equal
            } else if precedes(x, y) {
                Ordering::Less
            } else {
                Ordering::Greater
            },
            _ => Ordering::Equal,
        }
    }
}

impl PartialOrd for ChatMemberStatus {
    /// Statuses are ordered by variant, and two catch-alls by their
    /// literals.
    fn partial_cmp(&self, other: &ChatMemberStatus) -> (order: Option<Ordering>) {
        let a: u8 = self.rank();
        let b: u8 = other.rank();
        if a < b {
            Some(Ordering::Less)
        } else if a > b {
            Some(Ordering::Greater)
        } else {
            match (self, other) {
                (ChatMemberStatus::Unrecognized(x), ChatMemberStatus::Unrecognized(y)) => {
                    if same_text(x.as_str(), y.as_str()) {
                        Some(Ordering::Equal)
                    } else if text_less(x.as_str(), y.as_str()) {
                        Some(Ordering::Less)
                    } else {
                        Some(Ordering::Greater)
                    }
                },
                _ => Some(Ordering::Equal),
            }
        }
    }
}

impl vstd::std_specs::cmp::PartialOrdSpecImpl for ChatMemberStatus {
    open spec fn obeys_partial_cmp_spec() -> bool {
        true
    }

    open spec fn partial_cmp_spec(&self, other: &ChatMemberStatus) -> Option<Ordering> {
        Some(status_order(self@, other@))
    }
}

/// The order of statuses is total: two statuses compare as equal exactly
/// when they are the same, and one comes before the other exactly when the
/// other comes after it.
pub proof fn statuses_are_totally_ordered(a: Status, b: Status)
    ensures
        status_order(a, b) == Ordering::Equal <==> a == b,
        status_order(a, b) == Ordering::Less <==> status_order(b, a) == Ordering::Greater,
{
    if let (Status::Unrecognized(x), Status::Unrecognized(y)) = (a, b) {
        strings_are_totally_ordered(x, y);
    }
}

/// Whether a literal is one of the known status literals.
pub open spec fn is_known(raw: Seq<char>) -> bool {
    raw == "creator"@ || raw == "administrator"@ || raw == "member"@ || raw == "left"@ || raw
        == "kicked"@
}

/// The status that a literal stands for.
pub open spec fn status_of(raw: Seq<char>) -> Status {
    if raw == "creator"@ {
        Status::Creator
    } else if raw == "administrator"@ {
        Status::Administrator
    } else if raw == "member"@ {
        Status::Member
    } else if raw == "left"@ {
        Status::Left
    } else if raw == "kicked"@ {
        Status::Kicked
    } else {
        Status::Unrecognized(raw)
    }
}

impl Status {
    /// The place of this status's variant among the variants.
    pub open spec fn rank(self) -> nat {
        match self {
            Status::Creator => 0,
            Status::Administrator => 1,
            Status::Member => 2,
            Status::Left => 3,
            Status::Kicked => 4,
            Status::Unrecognized(_) => 5,
        }
    }

    /// The literal that stands for this status.
    pub open spec fn literal(self) -> Seq<char> {
        match self {
            Status::Creator => "creator"@,
            Status::Administrator => "administrator"@,
            Status::Member => "member"@,
            Status::Left => "left"@,
            Status::Kicked => "kicked"@,
            Status::Unrecognized(raw) => raw,
        }
    }
}

impl ChatMemberStatus {
    /// The place of this status's variant among the variants.
    fn rank(&self) -> (r: u8)
        ensures
            r == self@.rank(),
    {
        match self {
            ChatMemberStatus::Creator => 0,
            ChatMemberStatus::Administrator => 1,
            ChatMemberStatus::Member => 2,
            ChatMemberStatus::Left => 3,
            ChatMemberStatus::Kicked => 4,
            ChatMemberStatus::Unrecognized(_) => 5,
        }
    }

    /// Decodes a status literal. A known literal gives its variant; any other
    /// string is kept, unchanged, in `Unrecognized`.
    pub fn decode(raw: &str) -> (status: ChatMemberStatus)
        ensures
            status@ == status_of(raw@),
    {
        let known: [&str; 5] = ["creator", "administrator", "member", "left", "kicked"];
        match find_literal(&known, raw) {
            Some(0) => ChatMemberStatus::Creator,
            Some(1) => ChatMemberStatus::Administrator,
            Some(2) => ChatMemberStatus::Member,
            Some(3) => ChatMemberStatus::Left,
            Some(4) => ChatMemberStatus::Kicked,
            _ => ChatMemberStatus::Unrecognized(String::from_str(raw)),
        }
    }

    /// The literal that stands for this status.
    pub fn as_str(&self) -> (literal: &str)
        ensures
            literal@ == self@.literal(),
    {
        match self {
            ChatMemberStatus::Creator => "creator",
            ChatMemberStatus::Administrator => "administrator",
            ChatMemberStatus::Member => "member",
            ChatMemberStatus::Left => "left",
            ChatMemberStatus::Kicked => "kicked",
            ChatMemberStatus::Unrecognized(raw) => raw.as_str(),
        }
    }
}

/// The five known literals are distinct strings.
proof fn known_literals_differ()
    ensures
        "creator"@ != "administrator"@,
        "creator"@ != "member"@,
        "creator"@ != "left"@,
        "creator"@ != "kicked"@,
        "administrator"@ != "member"@,
        "administrator"@ != "left"@,
        "administrator"@ != "kicked"@,
        "member"@ != "left"@,
        "member"@ != "kicked"@,
        "left"@ != "kicked"@,
{
    reveal_strlit("creator");
    reveal_strlit("administrator");
    reveal_strlit("member");
    reveal_strlit("left");
    reveal_strlit("kicked");
    assert("creator"@.len() == 7);
    assert("administrator"@.len() == 13);
    assert("member"@.len() == 6);
    assert("left"@.len() == 4);
    assert("kicked"@.len() == 6);
    assert("member"@[0] != "kicked"@[0]);
}

/// Each known literal decodes to the variant of its name.
pub proof fn known_literals_decode_to_their_variants()
    ensures
        status_of("creator"@) == Status::Creator,
        status_of("administrator"@) == Status::Administrator,
        status_of("member"@) == Status::Member,
        status_of("left"@) == Status::Left,
        status_of("kicked"@) == Status::Kicked,
{
    known_literals_differ();
}

/// A known literal never decodes to the catch-all variant, and encoding what
/// it decodes to gives the literal back.
pub proof fn known_literal_round_trips(raw: Seq<char>)
    requires
        is_known(raw),
    ensures
        !(status_of(raw) is Unrecognized),
        status_of(raw).literal() == raw,
{
}

/// A literal that is not known decodes to the catch-all variant, which holds
/// the literal as it came.
pub proof fn unrecognized_literal_is_kept(raw: Seq<char>)
    requires
        !is_known(raw),
    ensures
        status_of(raw) == Status::Unrecognized(raw),
{
}

/// Whatever the literal, encoding the status that it decodes to gives the
/// literal back: decoding loses nothing.
pub proof fn decoding_loses_nothing(raw: Seq<char>)
    ensures
        status_of(raw).literal() == raw,
{
}

/// Decoding the literal of a status gives the status back, unless the status
/// is a catch-all that holds a known literal. Decoding never builds such a
/// status.
pub proof fn encoding_round_trips(status: Status)
    requires
        status matches Status::Unrecognized(raw) ==> !is_known(raw),
    ensures
        status_of(status.literal()) == status,
{
    known_literals_differ();
}

} // verus!
