//! The list, its items and the edits that one command applies to it.

use crate::text::listing;
use vstd::prelude::*;

verus! {

/// One entry of the list.
#[derive(Clone, Debug, PartialEq, Eq)]
pub struct Item {
    pub description: String,
    pub completed: bool,
}

/// What an [`Item`] stands for in contracts.
pub struct ItemView {
    pub description: Seq<char>,
    pub completed: bool,
}

impl View for Item {
    type V = ItemView;

    open spec fn view(&self) -> ItemView {
        ItemView { description: self.description@, completed: self.completed }
    }
}

/// The items in the order in which they were added.
#[derive(Clone, Debug, PartialEq, Eq)]
pub struct Todolist {
    pub items: Vec<Item>,
}

impl View for Todolist {
    type V = Seq<ItemView>;

    open spec fn view(&self) -> Seq<ItemView> {
        self.items@.map_values(|item: Item| item@)
    }
}

impl ItemView {
    /// The same item, completed.
    pub open spec fn done(self) -> ItemView {
        ItemView { description: self.description, completed: true }
    }
}

/// A fresh item: the description as given, not yet completed.
pub open spec fn pending(description: Seq<char>) -> ItemView {
    ItemView { description, completed: false }
}

/// Appends a new, uncompleted item at the end of the list. Any description
/// is taken, the empty one too.
pub fn add_item(list: &mut Todolist, item: String)
    ensures
        final(list)@ == old(list)@.push(pending(item@)),
{
    let new_item = Item { description: item, completed: false };
    list.items.push(new_item);
}

/// Why an edit by position was refused.
#[derive(Clone, Copy, Debug, PartialEq, Eq, Structural)]
pub enum EditError {
    /// The list holds no item at all.
    EmptyList,
    /// The list holds items, but none at the position given.
    NoSuchItem,
}

/// The verdict on an edit at the 1-based position `itemid` of a list of
/// `len` items. Position 0 names no item, and neither does one past `len`.
pub open spec fn edit_check(len: nat, itemid: u32) -> Result<(), EditError> {
    if len == 0 {
        Err(EditError::EmptyList)
    } else if itemid == 0 || itemid > len {
        Err(EditError::NoSuchItem)
    } else {
        Ok(())
    }
}

/// The list once the item at position `itemid` is taken out: the items
/// after it move up by one. A position that names no item leaves the list
/// as it is.
pub open spec fn after_remove(items: Seq<ItemView>, itemid: u32) -> Seq<ItemView> {
    if edit_check(items.len(), itemid) is Ok {
        items.remove(itemid - 1)
    } else {
        items
    }
}

/// The list once the item at position `itemid` is marked as completed.
/// A position that names no item leaves the list as it is.
pub open spec fn after_complete(items: Seq<ItemView>, itemid: u32) -> Seq<ItemView> {
    if edit_check(items.len(), itemid) is Ok {
        items.update(itemid - 1, items[itemid - 1].done())
    } else {
        items
    }
}

/// Decides on an edit at `itemid` and, where it is allowed, gives the
/// 0-based index of the item.
fn locate(list: &Todolist, itemid: u32) -> (found: Result<usize, EditError>)
    ensures
        found is Ok <==> edit_check(list@.len(), itemid) is Ok,
        found matches Ok(index) ==> index == itemid - 1,
        found matches Err(error) ==> edit_check(list@.len(), itemid) == Err::<(), EditError>(error),
{
    let len = list.items.len();
    if len == 0 {
        Err(EditError::EmptyList)
    } else if itemid == 0 || itemid as usize > len {
        Err(EditError::NoSuchItem)
    } else {
        Ok(itemid as usize - 1)
    }
}

/// Removes the item at the 1-based position `itemid`.
///
/// The edit is refused, and the list left untouched, when the list is
/// empty or holds no item at that position. Otherwise the list is one item
/// shorter and the other items keep their order.
pub fn remove_item(list: &mut Todolist, itemid: u32) -> (outcome: Result<(), EditError>)
    ensures
        outcome == edit_check(old(list)@.len(), itemid),
        final(list)@ == after_remove(old(list)@, itemid),
        old(list)@.len() == 0 ==> outcome is Err,
        0 < itemid == old(list)@.len() ==> outcome is Ok,
        itemid > old(list)@.len() ==> outcome is Err,
        outcome is Err ==> *final(list) == *old(list),
        outcome is Ok ==> final(list)@.len() == old(list)@.len() - 1,
        outcome is Ok ==> forall|j: int|
            0 <= j < itemid - 1 ==> final(list)@[j] == old(list)@[j],
        outcome is Ok ==> forall|j: int|
            itemid - 1 <= j < final(list)@.len() ==> final(list)@[j] == old(list)@[j + 1],
{
    match locate(list, itemid) {
        Ok(index) => {
            list.items.remove(index);
            Ok(())
        },
        Err(error) => Err(error),
    }
}

/// Marks the item at the 1-based position `itemid` as completed.
///
/// The edit is refused, and the list left untouched, when the list is
/// empty or holds no item at that position. Completing an item that is
/// completed already succeeds and changes nothing.
pub fn complete_item(list: &mut Todolist, itemid: u32) -> (outcome: Result<(), EditError>)
    ensures
        outcome == edit_check(old(list)@.len(), itemid),
        final(list)@ == after_complete(old(list)@, itemid),
        old(list)@.len() == 0 ==> outcome is Err,
        0 < itemid == old(list)@.len() ==> outcome is Ok,
        itemid > old(list)@.len() ==> outcome is Err,
        outcome is Err ==> *final(list) == *old(list),
        outcome is Ok ==> final(list)@.len() == old(list)@.len(),
        outcome is Ok ==> final(list)@[itemid - 1] == old(list)@[itemid - 1].done(),
        outcome is Ok ==> forall|j: int|
            0 <= j < old(list)@.len() && j != itemid - 1 ==> final(list)@[j] == old(list)@[j],
{
    match locate(list, itemid) {
        Ok(index) => {
            list.items[index].completed = true;
            Ok(())
        },
        Err(error) => Err(error),
    }
}

/// Completing the same position twice leaves the list as completing it
/// once does, and the second attempt is answered as the first was.
pub proof fn complete_twice_is_complete_once(items: Seq<ItemView>, itemid: u32)
    ensures
        after_complete(after_complete(items, itemid), itemid) == after_complete(items, itemid),
        edit_check(after_complete(items, itemid).len(), itemid) == edit_check(
            items.len(),
            itemid,
        ),
{
}

/// The list that replaces whatever was stored: it holds no item.
pub fn clear_items() -> (list: Todolist)
    ensures
        list@ == Seq::<ItemView>::empty(),
{
    let list = Todolist { items: Vec::new() };
    list
}

/// The text that a listing of `list` prints: see [`listing`].
pub fn list_items(list: &Todolist) -> (text: String)
    ensures
        text@ == listing(list@),
{
    list.to_text()
}

} // verus!
