//! The commands, and what each of them comes to on a given list.

use crate::text::{complete_message, complete_message_text, listing, remove_message,
    remove_message_text};
use crate::todo::{add_item, after_complete, after_remove, clear_items, complete_item,
    complete_twice_is_complete_once, edit_check, list_items, pending, remove_item, ItemView,
    Todolist};
use vstd::prelude::*;

verus! {

/// The arguments of one invocation.
#[derive(Clone, Debug, PartialEq, Eq)]
pub struct Args {
    pub command: Commands,
}

/// What the user can ask for.
#[derive(Clone, Debug, PartialEq, Eq)]
pub enum Commands {
    /// Append an item with this description.
    Add { item: String },
    /// Take out the item at this 1-based position.
    Remove { itemid: u32 },
    /// Mark the item at this 1-based position as completed.
    Complete { itemid: u32 },
    /// Print every item.
    List,
    /// Replace the stored list by the empty one.
    Clear,
}

/// What is left to do once a command was applied to the list.
#[derive(Clone, Debug, PartialEq, Eq)]
pub enum Action {
    /// Store this list in place of the old one.
    Save(Todolist),
    /// Print this text as it is. Nothing is stored.
    Show(String),
    /// Print this message on a line of its own. Nothing is stored.
    Report(String),
}

/// What an [`Action`] stands for in contracts.
pub enum ActionView {
    Save(Seq<ItemView>),
    Show(Seq<char>),
    Report(Seq<char>),
}

impl View for Action {
    type V = ActionView;

    open spec fn view(&self) -> ActionView {
        match self {
            Action::Save(list) => ActionView::Save(list@),
            Action::Show(text) => ActionView::Show(text@),
            Action::Report(message) => ActionView::Report(message@),
        }
    }
}

/// What a command comes to on the list `items`.
///
/// An addition and a clearing always end in a list to store. A removal
/// and a completion do so where the position names an item, and end in a
/// message where it names none. A listing ends in text to print.
pub open spec fn outcome(command: Commands, items: Seq<ItemView>) -> ActionView {
    match command {
        Commands::Add { item } => ActionView::Save(items.push(pending(item@))),
        Commands::Remove { itemid } => match edit_check(items.len(), itemid) {
            Ok(_) => ActionView::Save(after_remove(items, itemid)),
            Err(error) => ActionView::Report(remove_message_text(error, itemid)),
        },
        Commands::Complete { itemid } => match edit_check(items.len(), itemid) {
            Ok(_) => ActionView::Save(after_complete(items, itemid)),
            Err(error) => ActionView::Report(complete_message_text(error, itemid)),
        },
        Commands::List => ActionView::Show(listing(items)),
        Commands::Clear => ActionView::Save(Seq::empty()),
    }
}

impl Commands {
    /// Whether the stored list has to be read before the command is
    /// applied. Clearing replaces it unread.
    pub fn needs_load(&self) -> (needed: bool)
        ensures
            needed == !(self is Clear),
    {
        match self {
            Commands::Clear => false,
            _ => true,
        }
    }
}

/// Applies the command to the list as it was loaded.
///
/// A list is stored again only after an edit that was carried out: a
/// refused edit and a listing leave the store alone. For
/// [`Commands::Clear`] the list handed in plays no part.
pub fn run(args: Args, list: Todolist) -> (action: Action)
    ensures
        action@ == outcome(args.command, list@),
        (args.command is Remove || args.command is Complete) && list@.len() == 0
            ==> action is Report,
        args.command is List ==> action is Show,
{
    let mut list = list;
    match args.command {
        Commands::Add { item } => {
            add_item(&mut list, item);
            Action::Save(list)
        },
        Commands::Remove { itemid } => match remove_item(&mut list, itemid) {
            Ok(_) => Action::Save(list),
            Err(error) => Action::Report(remove_message(error, itemid)),
        },
        Commands::Complete { itemid } => match complete_item(&mut list, itemid) {
            Ok(_) => Action::Save(list),
            Err(error) => Action::Report(complete_message(error, itemid)),
        },
        Commands::List => Action::Show(list_items(&list)),
        Commands::Clear => Action::Save(clear_items()),
    }
}

/// On a list without items, a removal and a completion end in a message,
/// whatever the position: nothing is stored.
pub proof fn edit_of_empty_list_stores_nothing(itemid: u32)
    ensures
        outcome(Commands::Remove { itemid }, Seq::empty()) is Report,
        outcome(Commands::Complete { itemid }, Seq::empty()) is Report,
{
}

/// A removal and a completion at the last position are carried out, and
/// past the last position they end in a message.
pub proof fn edit_at_and_past_the_end(items: Seq<ItemView>, itemid: u32)
    ensures
        0 < itemid == items.len() ==> outcome(Commands::Remove { itemid }, items) is Save,
        0 < itemid == items.len() ==> outcome(Commands::Complete { itemid }, items) is Save,
        itemid > items.len() ==> outcome(Commands::Remove { itemid }, items) is Report,
        itemid > items.len() ==> outcome(Commands::Complete { itemid }, items) is Report,
{
}

/// A completion that is given a second time comes to what the first came
/// to: the same list to store, or the same message.
pub proof fn completion_twice_is_completion_once(items: Seq<ItemView>, itemid: u32)
    ensures
        outcome(Commands::Complete { itemid }, after_complete(items, itemid)) == outcome(
            Commands::Complete { itemid },
            items,
        ),
{
    complete_twice_is_complete_once(items, itemid);
}

/// Whatever the list held, clearing stores the empty list, and a listing
/// of that prints nothing.
pub proof fn listing_after_clear_is_empty(items: Seq<ItemView>)
    ensures
        outcome(Commands::Clear, items) == ActionView::Save(Seq::empty()),
        outcome(Commands::List, Seq::empty()) == ActionView::Show(Seq::empty()),
        listing(Seq::<ItemView>::empty()) == Seq::<char>::empty(),
{
}

} // verus!
