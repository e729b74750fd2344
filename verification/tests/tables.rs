use cheatnet::assoc::Table;
use cheatnet::felt::{copy_felts, Felt};
use cheatnet::text::{
    copied_optional_text, holds_text, joined_text, same_optional_text, same_text,
};

fn felt(value: u128) -> Felt {
    Felt::from_u128(value)
}

fn key(name: &str) -> String {
    name.to_string()
}

#[test]
fn empty_table_holds_nothing() {
    let table: Table<Felt, Felt> = Table::new();
    assert_eq!(table.get(&felt(1)), None);
    assert!(!table.contains_key(&felt(1)));
}

#[test]
fn set_replaces_and_remove_takes_out() {
    let mut table: Table<String, Felt> = Table::new();
    table.set(key("a"), felt(1));
    table.set(key("b"), felt(2));
    table.set(key("a"), felt(3));
    assert_eq!(table.get(&key("a")), Some(&felt(3)));
    assert_eq!(table.get(&key("b")), Some(&felt(2)));
    assert_eq!(table.get(&key("c")), None);

    table.remove(&key("a"));
    assert_eq!(table.get(&key("a")), None);
    assert!(table.contains_key(&key("b")));

    table.remove(&key("a"));
    table.remove(&key("c"));
    assert_eq!(table.get(&key("b")), Some(&felt(2)));

    table.set(key("a"), felt(4));
    assert_eq!(table.get(&key("a")), Some(&felt(4)));
}

#[test]
fn keys_are_told_apart_by_both_limbs() {
    let mut table: Table<Felt, String> = Table::new();
    table.set(Felt::new(1, 0), key("high"));
    table.set(Felt::new(0, 1), key("low"));
    assert_eq!(table.get(&Felt::new(1, 0)), Some(&key("high")));
    assert_eq!(table.get(&Felt::new(0, 1)), Some(&key("low")));
    assert_eq!(table.get(&Felt::new(1, 1)), None);
}

#[test]
fn filling_keeps_what_is_held_and_adds_the_rest() {
    let mut held: Table<String, Felt> = Table::new();
    held.set(key("a"), felt(1));
    held.set(key("b"), felt(2));
    let mut other: Table<String, Felt> = Table::new();
    other.set(key("b"), felt(20));
    other.set(key("c"), felt(30));
    other.set(key("c"), felt(31));

    held.fill_from(other);

    assert_eq!(held.get(&key("a")), Some(&felt(1)));
    assert_eq!(held.get(&key("b")), Some(&felt(2)));
    assert_eq!(held.get(&key("c")), Some(&felt(31)));
    assert_eq!(held.get(&key("d")), None);
}

#[test]
fn copy_of_a_table_is_independent() {
    let mut table: Table<String, Felt> = Table::new();
    table.set(key("a"), felt(1));
    let copy = table.duplicate();
    table.set(key("a"), felt(2));
    table.set(key("b"), felt(3));
    assert_eq!(copy.get(&key("a")), Some(&felt(1)));
    assert_eq!(copy.get(&key("b")), None);
}

#[test]
fn texts_are_compared_by_their_characters() {
    assert!(same_text("abc", "abc"));
    assert!(!same_text("abc", "abd"));
    assert!(!same_text("abc", "ab"));
    assert!(same_text("", ""));

    let some = Some(key("x"));
    assert!(same_optional_text(&some, &Some(key("x"))));
    assert!(!same_optional_text(&some, &Some(key("y"))));
    assert!(!same_optional_text(&some, &None));
    assert!(!same_optional_text(&None, &some));
    assert!(same_optional_text(&None, &None));
}

#[test]
fn texts_are_joined_found_and_copied() {
    assert_eq!(joined_text("ab", "cd"), "abcd");
    assert_eq!(joined_text("", "cd"), "cd");
    assert_eq!(joined_text("ab", ""), "ab");

    let list = vec![key("a"), key("b")];
    assert!(holds_text(&list, "a"));
    assert!(holds_text(&list, "b"));
    assert!(!holds_text(&list, "c"));
    assert!(!holds_text(&vec![], "a"));

    assert_eq!(copied_optional_text(&Some(key("a"))), Some(key("a")));
    assert_eq!(copied_optional_text(&None), None);
}

#[test]
fn list_of_elements_is_copied_in_order() {
    assert_eq!(copy_felts(&vec![felt(3), felt(1), felt(2)]), vec![felt(3), felt(1), felt(2)]);
    assert_eq!(copy_felts(&vec![]), vec![]);
}
