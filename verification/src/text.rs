//! What the program prints: decimal numerals, the listing, and the
//! messages for refused edits.

use crate::todo::{EditError, Item, ItemView, Todolist};
use vstd::prelude::*;

verus! {

/// The character for a decimal digit.
pub open spec fn digit(d: nat) -> char
    recommends
        d < 10,
{
    if d == 0 {
        '0'
    } else if d == 1 {
        '1'
    } else if d == 2 {
        '2'
    } else if d == 3 {
        '3'
    } else if d == 4 {
        '4'
    } else if d == 5 {
        '5'
    } else if d == 6 {
        '6'
    } else if d == 7 {
        '7'
    } else if d == 8 {
        '8'
    } else {
        '9'
    }
}

/// The decimal numeral of `n`: no sign, no leading zero, no separators.
pub open spec fn decimal(n: nat) -> Seq<char>
    decreases n,
{
    if n < 10 {
        seq![digit(n)]
    } else {
        decimal(n / 10).push(digit(n % 10))
    }
}

/// The digit `d` as a string of one character.
fn digit_str(d: u64) -> (s: &'static str)
    requires
        d < 10,
    ensures
        s@ == seq![digit(d as nat)],
{
    proof {
        reveal_strlit("0");
        reveal_strlit("1");
        reveal_strlit("2");
        reveal_strlit("3");
        reveal_strlit("4");
        reveal_strlit("5");
        reveal_strlit("6");
        reveal_strlit("7");
        reveal_strlit("8");
        reveal_strlit("9");
    }
    let s = if d == 0 {
        "0"
    } else if d == 1 {
        "1"
    } else if d == 2 {
        "2"
    } else if d == 3 {
        "3"
    } else if d == 4 {
        "4"
    } else if d == 5 {
        "5"
    } else if d == 6 {
        "6"
    } else if d == 7 {
        "7"
    } else if d == 8 {
        "8"
    } else {
        "9"
    };
    s
}

/// Writes `n` as a decimal numeral.
pub fn to_decimal(n: u64) -> (text: String)
    ensures
        text@ == decimal(n as nat),
    decreases n,
{
    if n < 10 {
        String::from_str(digit_str(n))
    } else {
        let mut text = to_decimal(n / 10);
        text.append(digit_str(n % 10));
        text
    }
}

/// The mark in front of a description: a check mark on a completed item,
/// an upper-case X on one that is still open.
pub open spec fn marker(completed: bool) -> char {
    if completed {
        '\u{2713}'
    } else {
        'X'
    }
}

/// An item as it is shown: its mark, a space, its description.
pub open spec fn item_text(item: ItemView) -> Seq<char> {
    seq![marker(item.completed), ' '] + item.description
}

/// One line of the listing: the 1-based position, a full stop, a space,
/// the item, and a line feed.
pub open spec fn line(position: nat, item: ItemView) -> Seq<char> {
    decimal(position) + seq!['.', ' '] + item_text(item) + seq!['\n']
}

/// The listing: one line per item, in the order of the list, each numbered
/// by the position that the item has now. An empty list gives no text.
pub open spec fn listing(items: Seq<ItemView>) -> Seq<char>
    decreases items.len(),
{
    if items.len() == 0 {
        Seq::empty()
    } else {
        listing(items.drop_last()) + line(items.len(), items.last())
    }
}

impl Item {
    /// The item as it is shown in the listing, without its position.
    pub fn to_text(&self) -> (text: String)
        ensures
            text@ == item_text(self@),
    {
        proof {
            reveal_strlit("\u{2713} ");
            reveal_strlit("X ");
        }
        let mut text = if self.completed {
            String::from_str("\u{2713} ")
        } else {
            String::from_str("X ")
        };
        text.append(self.description.as_str());
        text
    }
}

impl Todolist {
    /// The whole listing.
    pub fn to_text(&self) -> (text: String)
        ensures
            text@ == listing(self@),
    {
        let mut text = String::new();
        let len = self.items.len();
        let mut i: usize = 0;
        while i < len
            invariant
                len == self.items.len(),
                i <= len,
                text@ == listing(self@.take(i as int)),
            decreases len - i,
        {
            proof {
                reveal_strlit(". ");
                reveal_strlit("\n");
            }
            let number = to_decimal((i + 1) as u64);
            let shown = self.items[i].to_text();
            text.append(number.as_str());
            text.append(". ");
            text.append(shown.as_str());
            text.append("\n");
            proof {
                assert(self@.take(i + 1).drop_last() =~= self@.take(i as int));
            }
            i += 1;
        }
        assert(self@.take(len as int) =~= self@);
        text
    }
}

/// The message for a refused removal at position `itemid`.
pub open spec fn remove_message_text(error: EditError, itemid: u32) -> Seq<char> {
    match error {
        EditError::EmptyList => "Cannot remove item id "@ + decimal(itemid as nat)
            + " from empty todo list"@,
        EditError::NoSuchItem => "Cannot remove item id "@ + decimal(itemid as nat)
            + " cannot remove an item that does not exist"@,
    }
}

/// The message for a refused completion at position `itemid`.
pub open spec fn complete_message_text(error: EditError, itemid: u32) -> Seq<char> {
    match error {
        EditError::EmptyList => "Cannot edit item id "@ + decimal(itemid as nat)
            + " when list is empty"@,
        EditError::NoSuchItem => "Cannot edit item id "@ + decimal(itemid as nat)
            + " because it does not exist"@,
    }
}

/// Words the refusal of a removal, without a line feed at the end.
pub fn remove_message(error: EditError, itemid: u32) -> (text: String)
    ensures
        text@ == remove_message_text(error, itemid),
{
    let mut text = String::from_str("Cannot remove item id ");
    let number = to_decimal(itemid as u64);
    text.append(number.as_str());
    match error {
        EditError::EmptyList => text.append(" from empty todo list"),
        EditError::NoSuchItem => text.append(" cannot remove an item that does not exist"),
    }
    text
}

/// Words the refusal of a completion, without a line feed at the end.
pub fn complete_message(error: EditError, itemid: u32) -> (text: String)
    ensures
        text@ == complete_message_text(error, itemid),
{
    let mut text = String::from_str("Cannot edit item id ");
    let number = to_decimal(itemid as u64);
    text.append(number.as_str());
    match error {
        EditError::EmptyList => text.append(" when list is empty"),
        EditError::NoSuchItem => text.append(" because it does not exist"),
    }
    text
}

} // verus!
