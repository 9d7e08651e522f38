//! The edits on a list held in memory.

use todolist::todo::{add_item, clear_items, complete_item, remove_item, EditError, Item, Todolist};

fn open(description: &str) -> Item {
    Item { description: String::from(description), completed: false }
}

fn done(description: &str) -> Item {
    Item { description: String::from(description), completed: true }
}

fn list_of(items: Vec<Item>) -> Todolist {
    Todolist { items }
}

#[test]
fn add_appends_an_open_item() {
    let mut list = clear_items();
    add_item(&mut list, String::from("a"));
    assert_eq!(list, list_of(vec![open("a")]));
    add_item(&mut list, String::from("b"));
    assert_eq!(list, list_of(vec![open("a"), open("b")]));
}

#[test]
fn add_keeps_what_is_there() {
    let mut list = list_of(vec![done("a"), open("b")]);
    add_item(&mut list, String::from("c"));
    assert_eq!(list, list_of(vec![done("a"), open("b"), open("c")]));
}

#[test]
fn add_takes_an_empty_description() {
    let mut list = clear_items();
    add_item(&mut list, String::new());
    assert_eq!(list, list_of(vec![open("")]));
}

#[test]
fn add_takes_the_same_description_twice() {
    let mut list = clear_items();
    add_item(&mut list, String::from("a"));
    add_item(&mut list, String::from("a"));
    assert_eq!(list, list_of(vec![open("a"), open("a")]));
}

#[test]
fn clear_items_is_empty() {
    assert_eq!(clear_items(), list_of(Vec::new()));
}

#[test]
fn remove_takes_out_the_middle_and_keeps_the_order() {
    let mut list = list_of(vec![open("a"), done("b"), open("c"), done("d")]);
    assert_eq!(remove_item(&mut list, 2), Ok(()));
    assert_eq!(list, list_of(vec![open("a"), open("c"), done("d")]));
}

#[test]
fn remove_takes_out_the_first() {
    let mut list = list_of(vec![open("a"), done("b"), open("c")]);
    assert_eq!(remove_item(&mut list, 1), Ok(()));
    assert_eq!(list, list_of(vec![done("b"), open("c")]));
}

#[test]
fn remove_at_the_length_takes_out_the_last() {
    let mut list = list_of(vec![open("a"), done("b"), open("c")]);
    assert_eq!(remove_item(&mut list, 3), Ok(()));
    assert_eq!(list, list_of(vec![open("a"), done("b")]));
}

#[test]
fn remove_the_only_item() {
    let mut list = list_of(vec![open("a")]);
    assert_eq!(remove_item(&mut list, 1), Ok(()));
    assert_eq!(list, list_of(Vec::new()));
}

#[test]
fn remove_makes_the_list_one_shorter() {
    let mut list = clear_items();
    for n in 0..20 {
        add_item(&mut list, format!("item {}", n));
    }
    for left in (0..20usize).rev() {
        assert_eq!(remove_item(&mut list, 1), Ok(()));
        assert_eq!(list.items.len(), left);
    }
    assert_eq!(remove_item(&mut list, 1), Err(EditError::EmptyList));
}

#[test]
fn remove_on_an_empty_list_is_refused() {
    for itemid in [0, 1, 2, u32::MAX] {
        let mut list = clear_items();
        assert_eq!(remove_item(&mut list, itemid), Err(EditError::EmptyList));
        assert_eq!(list, list_of(Vec::new()));
    }
}

#[test]
fn remove_past_the_length_is_refused() {
    for itemid in [3, 4, u32::MAX] {
        let mut list = list_of(vec![open("a"), done("b")]);
        assert_eq!(remove_item(&mut list, itemid), Err(EditError::NoSuchItem));
        assert_eq!(list, list_of(vec![open("a"), done("b")]));
    }
}

#[test]
fn remove_at_zero_is_refused() {
    let mut list = list_of(vec![open("a"), done("b")]);
    assert_eq!(remove_item(&mut list, 0), Err(EditError::NoSuchItem));
    assert_eq!(list, list_of(vec![open("a"), done("b")]));
}

#[test]
fn complete_marks_one_item_only() {
    let mut list = list_of(vec![open("a"), open("b"), open("c")]);
    assert_eq!(complete_item(&mut list, 2), Ok(()));
    assert_eq!(list, list_of(vec![open("a"), done("b"), open("c")]));
}

#[test]
fn complete_at_the_length_marks_the_last() {
    let mut list = list_of(vec![open("a"), open("b"), open("c")]);
    assert_eq!(complete_item(&mut list, 3), Ok(()));
    assert_eq!(list, list_of(vec![open("a"), open("b"), done("c")]));
}

#[test]
fn complete_twice_is_as_once() {
    let mut once = list_of(vec![open("a"), open("b")]);
    assert_eq!(complete_item(&mut once, 1), Ok(()));
    let mut twice = list_of(vec![open("a"), open("b")]);
    assert_eq!(complete_item(&mut twice, 1), Ok(()));
    assert_eq!(complete_item(&mut twice, 1), Ok(()));
    assert_eq!(once, twice);
    assert_eq!(twice, list_of(vec![done("a"), open("b")]));
}

#[test]
fn complete_twice_is_refused_twice() {
    let mut list = list_of(vec![open("a")]);
    assert_eq!(complete_item(&mut list, 2), Err(EditError::NoSuchItem));
    assert_eq!(complete_item(&mut list, 2), Err(EditError::NoSuchItem));
    assert_eq!(list, list_of(vec![open("a")]));
}

#[test]
fn complete_on_an_empty_list_is_refused() {
    for itemid in [0, 1, 2, u32::MAX] {
        let mut list = clear_items();
        assert_eq!(complete_item(&mut list, itemid), Err(EditError::EmptyList));
        assert_eq!(list, list_of(Vec::new()));
    }
}

#[test]
fn complete_past_the_length_is_refused() {
    for itemid in [3, 4, u32::MAX] {
        let mut list = list_of(vec![open("a"), done("b")]);
        assert_eq!(complete_item(&mut list, itemid), Err(EditError::NoSuchItem));
        assert_eq!(list, list_of(vec![open("a"), done("b")]));
    }
}

#[test]
fn complete_at_zero_is_refused() {
    let mut list = list_of(vec![open("a"), done("b")]);
    assert_eq!(complete_item(&mut list, 0), Err(EditError::NoSuchItem));
    assert_eq!(list, list_of(vec![open("a"), done("b")]));
}

#[test]
fn positions_follow_a_removal() {
    let mut list = list_of(vec![open("a"), open("b"), open("c")]);
    assert_eq!(remove_item(&mut list, 1), Ok(()));
    assert_eq!(complete_item(&mut list, 1), Ok(()));
    assert_eq!(list, list_of(vec![done("b"), open("c")]));
    assert_eq!(complete_item(&mut list, 3), Err(EditError::NoSuchItem));
}
