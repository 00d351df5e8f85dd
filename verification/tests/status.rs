use chat_membership::permissive::find_literal;
use chat_membership::status::ChatMemberStatus;

#[test]
fn known_literals_give_their_variants() {
    assert_eq!(ChatMemberStatus::decode("creator"), ChatMemberStatus::Creator);
    assert_eq!(ChatMemberStatus::decode("administrator"), ChatMemberStatus::Administrator);
    assert_eq!(ChatMemberStatus::decode("member"), ChatMemberStatus::Member);
    assert_eq!(ChatMemberStatus::decode("left"), ChatMemberStatus::Left);
    assert_eq!(ChatMemberStatus::decode("kicked"), ChatMemberStatus::Kicked);
}

#[test]
fn known_literals_round_trip() {
    for literal in ["creator", "administrator", "member", "left", "kicked"] {
        let status = ChatMemberStatus::decode(literal);
        assert!(!matches!(status, ChatMemberStatus::Unrecognized(_)));
        assert_eq!(status.as_str(), literal);
    }
}

#[test]
fn unknown_literal_is_kept_as_it_came() {
    assert_eq!(
        ChatMemberStatus::decode("owner_pending"),
        ChatMemberStatus::Unrecognized("owner_pending".to_string())
    );
    assert_eq!(ChatMemberStatus::decode("owner_pending").as_str(), "owner_pending");
}

#[test]
fn restricted_is_not_among_the_known() {
    assert_eq!(
        ChatMemberStatus::decode("restricted"),
        ChatMemberStatus::Unrecognized("restricted".to_string())
    );
}

#[test]
fn literals_are_case_sensitive() {
    assert_eq!(
        ChatMemberStatus::decode("Creator"),
        ChatMemberStatus::Unrecognized("Creator".to_string())
    );
    assert_eq!(
        ChatMemberStatus::decode("MEMBER"),
        ChatMemberStatus::Unrecognized("MEMBER".to_string())
    );
}

#[test]
fn literals_are_not_trimmed() {
    assert_eq!(
        ChatMemberStatus::decode(" left"),
        ChatMemberStatus::Unrecognized(" left".to_string())
    );
    assert_eq!(
        ChatMemberStatus::decode("kicked\n"),
        ChatMemberStatus::Unrecognized("kicked\n".to_string())
    );
}

#[test]
fn empty_literal_is_unrecognized() {
    assert_eq!(ChatMemberStatus::decode(""), ChatMemberStatus::Unrecognized(String::new()));
}

#[test]
fn prefix_of_a_known_literal_is_unrecognized() {
    assert_eq!(
        ChatMemberStatus::decode("creat"),
        ChatMemberStatus::Unrecognized("creat".to_string())
    );
    assert_eq!(
        ChatMemberStatus::decode("members"),
        ChatMemberStatus::Unrecognized("members".to_string())
    );
}

#[test]
fn literal_outside_ascii_is_kept_whole() {
    let raw = "\u{0441}reator \u{1F600}";
    assert_eq!(ChatMemberStatus::decode(raw), ChatMemberStatus::Unrecognized(raw.to_string()));
    assert_eq!(ChatMemberStatus::decode(raw).as_str(), raw);
}

#[test]
fn a_long_literal_is_not_cut() {
    let raw = "x".repeat(10_000);
    match ChatMemberStatus::decode(&raw) {
        ChatMemberStatus::Unrecognized(kept) => assert_eq!(kept, raw),
        other => panic!("unexpected status {:?}", other),
    }
}

#[test]
fn encoding_gives_the_literal_of_each_variant() {
    assert_eq!(ChatMemberStatus::Creator.as_str(), "creator");
    assert_eq!(ChatMemberStatus::Administrator.as_str(), "administrator");
    assert_eq!(ChatMemberStatus::Member.as_str(), "member");
    assert_eq!(ChatMemberStatus::Left.as_str(), "left");
    assert_eq!(ChatMemberStatus::Kicked.as_str(), "kicked");
    assert_eq!(ChatMemberStatus::Unrecognized("banned".to_string()).as_str(), "banned");
}

#[test]
fn decoding_the_literal_of_a_status_gives_it_back() {
    let statuses = vec![
        ChatMemberStatus::Creator,
        ChatMemberStatus::Administrator,
        ChatMemberStatus::Member,
        ChatMemberStatus::Left,
        ChatMemberStatus::Kicked,
        ChatMemberStatus::Unrecognized("owner_pending".to_string()),
    ];
    for status in statuses {
        assert_eq!(ChatMemberStatus::decode(status.as_str()), status);
    }
}

#[test]
fn statuses_are_ordered_by_variant_then_literal() {
    assert!(ChatMemberStatus::Creator < ChatMemberStatus::Administrator);
    assert!(ChatMemberStatus::Administrator < ChatMemberStatus::Member);
    assert!(ChatMemberStatus::Member < ChatMemberStatus::Left);
    assert!(ChatMemberStatus::Left < ChatMemberStatus::Kicked);
    assert!(ChatMemberStatus::Kicked < ChatMemberStatus::Unrecognized(String::new()));
    assert!(
        ChatMemberStatus::Unrecognized("a".to_string())
            < ChatMemberStatus::Unrecognized("b".to_string())
    );
    assert_ne!(
        ChatMemberStatus::Unrecognized("a".to_string()),
        ChatMemberStatus::Unrecognized("b".to_string())
    );
    assert_ne!(ChatMemberStatus::Unrecognized("creator".to_string()), ChatMemberStatus::Creator);
}

#[test]
fn find_literal_gives_the_position() {
    let table = ["creator", "administrator", "member", "left", "kicked"];
    assert_eq!(find_literal(&table, "creator"), Some(0));
    assert_eq!(find_literal(&table, "administrator"), Some(1));
    assert_eq!(find_literal(&table, "member"), Some(2));
    assert_eq!(find_literal(&table, "left"), Some(3));
    assert_eq!(find_literal(&table, "kicked"), Some(4));
    assert_eq!(find_literal(&table, "owner_pending"), None);
}

#[test]
fn find_literal_gives_the_first_of_equal_entries() {
    let table = ["a", "b", "a", "b"];
    assert_eq!(find_literal(&table, "a"), Some(0));
    assert_eq!(find_literal(&table, "b"), Some(1));
}

#[test]
fn find_literal_in_an_empty_table_finds_nothing() {
    let table: [&str; 0] = [];
    assert_eq!(find_literal(&table, ""), None);
    assert_eq!(find_literal(&table, "creator"), None);
}

#[test]
fn equal_statuses_are_equal() {
    assert_eq!(ChatMemberStatus::Creator, ChatMemberStatus::Creator);
    assert_eq!(ChatMemberStatus::Kicked, ChatMemberStatus::Kicked);
    assert_eq!(
        ChatMemberStatus::Unrecognized("owner_pending".to_string()),
        ChatMemberStatus::Unrecognized("owner_pending".to_string())
    );
    assert_ne!(ChatMemberStatus::Creator, ChatMemberStatus::Administrator);
    assert_ne!(ChatMemberStatus::Left, ChatMemberStatus::Unrecognized("left".to_string()));
    assert_ne!(
        ChatMemberStatus::Unrecognized("a".to_string()),
        ChatMemberStatus::Unrecognized("A".to_string())
    );
}

#[test]
fn both_orders_of_statuses_agree() {
    let statuses = vec![
        ChatMemberStatus::Creator,
        ChatMemberStatus::Administrator,
        ChatMemberStatus::Member,
        ChatMemberStatus::Left,
        ChatMemberStatus::Kicked,
        ChatMemberStatus::Unrecognized(String::new()),
        ChatMemberStatus::Unrecognized("a".to_string()),
        ChatMemberStatus::Unrecognized("ab".to_string()),
        ChatMemberStatus::Unrecognized("b".to_string()),
        ChatMemberStatus::Unrecognized("\u{e9}".to_string()),
        ChatMemberStatus::Unrecognized("\u{1F600}".to_string()),
    ];
    for (i, a) in statuses.iter().enumerate() {
        for (j, b) in statuses.iter().enumerate() {
            assert_eq!(a.partial_cmp(b), Some(i.cmp(&j)));
            assert_eq!(a.partial_cmp(b), Some(a.cmp(b)));
            assert_eq!(a == b, i == j);
            assert_eq!(a < b, i < j);
        }
    }
}
