//! A to-do list kept as an ordered sequence of items.
//!
//! An item has no identifier of its own: it is addressed by its 1-based
//! position in the list at the time of the command, so a removal renumbers
//! the items behind it.
//!
//! The library holds the list and its edits ([`todo`]), the text that is
//! printed ([`text`]), what each command comes to ([`cli`]) and how a load
//! goes on ([`store`]). It reads and writes nothing itself: a front end
//! loads the stored list, hands it to [`cli::run`], and carries out the
//! [`cli::Action`] that comes back.

pub mod cli;
pub mod store;
pub mod text;
pub mod todo;
