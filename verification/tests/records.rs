use chat_membership::failure::{DecodeError, Shape};
use chat_membership::raw::{RawRecord, RawValue};
use chat_membership::schema::{
    optional_boolean, optional_integer, optional_nested, optional_text, present,
    required_boolean, required_integer, required_nested, required_text,
};
use chat_membership::text::{dotted_path, owned, same_text, text_less};
use chat_membership::user::User;

fn text(s: &str) -> RawValue {
    RawValue::Text(s.to_string())
}

fn sample() -> RawRecord {
    RawRecord::new()
        .with("name", text("Ada"))
        .with("flag", RawValue::Boolean(false))
        .with("count", RawValue::Integer(-7))
        .with("inner", RawValue::Record(RawRecord::new().with("flag", RawValue::Boolean(true))))
}

fn user_record(id: i64, first_name: &str) -> RawRecord {
    RawRecord::new()
        .with("id", RawValue::Integer(id))
        .with("is_bot", RawValue::Boolean(false))
        .with("first_name", text(first_name))
}

#[test]
fn same_text_compares_character_for_character() {
    assert!(same_text("", ""));
    assert!(same_text("status", "status"));
    assert!(!same_text("status", "Status"));
    assert!(!same_text("status", "statu"));
    assert!(!same_text("statu", "status"));
    assert!(!same_text("status", "status "));
    assert!(same_text("\u{e9}t\u{e9}", "\u{e9}t\u{e9}"));
    assert!(!same_text("\u{e9}", "e"));
}

#[test]
fn dotted_path_joins_with_one_dot() {
    assert_eq!(dotted_path("user", "id"), "user.id");
    assert_eq!(dotted_path("old_chat_member", "user.id"), "old_chat_member.user.id");
    assert_eq!(dotted_path("", ""), ".");
}

#[test]
fn owned_keeps_presence_and_text() {
    assert_eq!(owned(None), None);
    assert_eq!(owned(Some("x")), Some("x".to_string()));
    assert_eq!(owned(Some("")), Some(String::new()));
}

#[test]
fn new_record_is_empty() {
    let rec = RawRecord::new();
    assert_eq!(rec.entries.len(), 0);
    assert_eq!(rec.get("anything"), None);
}

#[test]
fn with_appends_an_entry() {
    let rec = RawRecord::new().with("a", RawValue::Integer(1)).with("b", RawValue::Integer(2));
    assert_eq!(
        rec.entries,
        vec![("a".to_string(), RawValue::Integer(1)), ("b".to_string(), RawValue::Integer(2))]
    );
}

#[test]
fn get_finds_each_entry() {
    let rec = sample();
    assert_eq!(rec.get("name"), Some(&text("Ada")));
    assert_eq!(rec.get("flag"), Some(&RawValue::Boolean(false)));
    assert_eq!(rec.get("count"), Some(&RawValue::Integer(-7)));
    assert_eq!(rec.get("missing"), None);
    assert_eq!(rec.get("Name"), None);
    assert_eq!(rec.get(""), None);
}

#[test]
fn get_gives_the_first_of_equal_keys() {
    let rec = RawRecord::new().with("k", RawValue::Integer(1)).with("k", RawValue::Integer(2));
    assert_eq!(rec.get("k"), Some(&RawValue::Integer(1)));
}

#[test]
fn get_does_not_look_into_nested_records() {
    let rec = RawRecord::new()
        .with("inner", RawValue::Record(RawRecord::new().with("deep", RawValue::Integer(1))));
    assert_eq!(rec.get("deep"), None);
}

#[test]
fn optional_fields_read_absent_as_none() {
    let rec = sample();
    assert_eq!(optional_text(&rec, "missing"), Ok(None));
    assert_eq!(optional_boolean(&rec, "missing"), Ok(None));
    assert_eq!(optional_integer(&rec, "missing"), Ok(None));
    assert_eq!(optional_nested::<User>(&rec, "missing"), Ok(None));
}

#[test]
fn optional_fields_read_present_values() {
    let rec = sample();
    assert_eq!(optional_text(&rec, "name"), Ok(Some("Ada")));
    assert_eq!(optional_boolean(&rec, "flag"), Ok(Some(false)));
    assert_eq!(optional_integer(&rec, "count"), Ok(Some(-7)));
}

#[test]
fn required_fields_read_present_values() {
    let rec = sample();
    assert_eq!(required_text(&rec, "name"), Ok("Ada"));
    assert_eq!(required_boolean(&rec, "flag"), Ok(false));
    assert_eq!(required_integer(&rec, "count"), Ok(-7));
}

#[test]
fn required_fields_fail_when_absent() {
    let rec = sample();
    assert_eq!(required_text(&rec, "title"), Err(DecodeError::MissingField("title".to_string())));
    assert_eq!(required_boolean(&rec, "ok"), Err(DecodeError::MissingField("ok".to_string())));
    assert_eq!(required_integer(&rec, "date"), Err(DecodeError::MissingField("date".to_string())));
    assert_eq!(
        required_nested::<User>(&rec, "user"),
        Err(DecodeError::MissingField("user".to_string()))
    );
}

#[test]
fn a_value_of_another_shape_is_a_mismatch() {
    let rec = sample();
    assert_eq!(
        optional_text(&rec, "flag"),
        Err(DecodeError::TypeMismatch("flag".to_string(), Shape::Text))
    );
    assert_eq!(
        optional_boolean(&rec, "name"),
        Err(DecodeError::TypeMismatch("name".to_string(), Shape::Boolean))
    );
    assert_eq!(
        optional_integer(&rec, "flag"),
        Err(DecodeError::TypeMismatch("flag".to_string(), Shape::Integer))
    );
    assert_eq!(
        optional_nested::<User>(&rec, "count"),
        Err(DecodeError::TypeMismatch("count".to_string(), Shape::Record))
    );
    assert_eq!(
        required_text(&rec, "inner"),
        Err(DecodeError::TypeMismatch("inner".to_string(), Shape::Text))
    );
    assert_eq!(
        required_boolean(&rec, "count"),
        Err(DecodeError::TypeMismatch("count".to_string(), Shape::Boolean))
    );
    assert_eq!(
        required_integer(&rec, "name"),
        Err(DecodeError::TypeMismatch("name".to_string(), Shape::Integer))
    );
    assert_eq!(
        required_nested::<User>(&rec, "name"),
        Err(DecodeError::TypeMismatch("name".to_string(), Shape::Record))
    );
}

#[test]
fn integers_are_read_over_their_whole_range() {
    let rec = RawRecord::new()
        .with("low", RawValue::Integer(i64::MIN))
        .with("high", RawValue::Integer(i64::MAX))
        .with("zero", RawValue::Integer(0));
    assert_eq!(required_integer(&rec, "low"), Ok(i64::MIN));
    assert_eq!(required_integer(&rec, "high"), Ok(i64::MAX));
    assert_eq!(optional_integer(&rec, "zero"), Ok(Some(0)));
}

#[test]
fn the_first_of_equal_keys_decides_the_shape() {
    let rec = RawRecord::new().with("k", text("one")).with("k", RawValue::Integer(2));
    assert_eq!(required_text(&rec, "k"), Ok("one"));
    assert_eq!(
        required_integer(&rec, "k"),
        Err(DecodeError::TypeMismatch("k".to_string(), Shape::Integer))
    );
}

#[test]
fn nested_entity_is_read() {
    let rec = RawRecord::new().with("user", RawValue::Record(user_record(5, "Ada")));
    let user = User {
        id: 5,
        is_bot: false,
        first_name: "Ada".to_string(),
        last_name: None,
        username: None,
    };
    assert_eq!(required_nested::<User>(&rec, "user"), Ok(user.clone()));
    assert_eq!(optional_nested::<User>(&rec, "user"), Ok(Some(user)));
}

#[test]
fn nested_failure_gets_the_field_name_in_front() {
    let broken = RawRecord::new().with("is_bot", RawValue::Boolean(false));
    let rec = RawRecord::new().with("user", RawValue::Record(broken));
    assert_eq!(
        required_nested::<User>(&rec, "user"),
        Err(DecodeError::MissingField("user.id".to_string()))
    );
    let broken = RawRecord::new().with("id", text("5"));
    let rec = RawRecord::new().with("creator", RawValue::Record(broken));
    assert_eq!(
        optional_nested::<User>(&rec, "creator"),
        Err(DecodeError::TypeMismatch("creator.id".to_string(), Shape::Integer))
    );
}

#[test]
fn present_turns_absence_into_a_missing_field() {
    assert_eq!(present(Some(3), "n"), Ok(3));
    assert_eq!(present::<i64>(None, "n"), Err(DecodeError::MissingField("n".to_string())));
}

#[test]
fn within_prefixes_the_path() {
    let missing = DecodeError::MissingField("id".to_string());
    assert_eq!(missing.within("user"), DecodeError::MissingField("user.id".to_string()));
    let mismatch = DecodeError::TypeMismatch("user.id".to_string(), Shape::Integer);
    assert_eq!(
        mismatch.within("old_chat_member"),
        DecodeError::TypeMismatch("old_chat_member.user.id".to_string(), Shape::Integer)
    );
}

#[test]
fn path_names_the_offending_field() {
    assert_eq!(DecodeError::MissingField("status".to_string()).path(), "status");
    assert_eq!(
        DecodeError::TypeMismatch("user.is_bot".to_string(), Shape::Boolean).path(),
        "user.is_bot"
    );
}

#[test]
fn text_less_orders_strings_as_the_language_does() {
    let samples = ["", "a", "ab", "abc", "b", "B", "creator", "kicked", "\u{e9}", "\u{e9}a", "z", "\u{1F600}"];
    for a in samples {
        for b in samples {
            assert_eq!(text_less(a, b), a < b);
        }
    }
}

#[test]
fn text_less_on_chosen_strings() {
    assert!(text_less("", "a"));
    assert!(!text_less("a", ""));
    assert!(!text_less("a", "a"));
    assert!(text_less("a", "ab"));
    assert!(text_less("ab", "b"));
    assert!(text_less("B", "a"));
    assert!(!text_less("b", "ab"));
}
