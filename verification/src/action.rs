//! The one-byte action tags that open every request on a channel.
//!
//! A client sends the tag of the operation it wants, then the operation's
//! arguments; the serving loop reads the tag first and refuses a byte
//! that names no operation.

use vstd::prelude::*;

verus! {

/// The operations of the key-value database, in tag order.
#[derive(Clone, Copy, Debug, PartialEq, Eq, Structural)]
pub enum StoreAction {
    Get,
    Insert,
    Remove,
}

/// The operations of the distributed list, in tag order.
#[derive(Clone, Copy, Debug, PartialEq, Eq, Structural)]
pub enum ListAction {
    Get,
    Push,
    Remove,
}

/// A tag byte that names no operation.
#[derive(Clone, Copy, Debug, PartialEq, Eq, Structural)]
pub struct InvalidAction {
    /// The byte that was read.
    pub value: u8,
}

/// The tag of a database operation: its position in the declaration.
pub open spec fn store_tag(action: StoreAction) -> u8 {
    match action {
        StoreAction::Get => 0,
        StoreAction::Insert => 1,
        StoreAction::Remove => 2,
    }
}

/// The tag of a list operation: its position in the declaration.
pub open spec fn list_tag(action: ListAction) -> u8 {
    match action {
        ListAction::Get => 0,
        ListAction::Push => 1,
        ListAction::Remove => 2,
    }
}

/// The database operation that a byte names, if any.
pub open spec fn store_action_of(code: u8) -> Option<StoreAction> {
    if code == 0 {
        Some(StoreAction::Get)
    } else if code == 1 {
        Some(StoreAction::Insert)
    } else if code == 2 {
        Some(StoreAction::Remove)
    } else {
        None
    }
}

/// The list operation that a byte names, if any.
pub open spec fn list_action_of(code: u8) -> Option<ListAction> {
    if code == 0 {
        Some(ListAction::Get)
    } else if code == 1 {
        Some(ListAction::Push)
    } else if code == 2 {
        Some(ListAction::Remove)
    } else {
        None
    }
}

/// The number of operations of each kind; every byte at or above it is
/// refused.
pub const ACTION_COUNT: u8 = 3;

impl StoreAction {
    /// The byte that stands for this operation on the wire.
    pub fn tag(&self) -> (code: u8)
        ensures
            code == store_tag(*self),
    {
        match self {
            StoreAction::Get => 0,
            StoreAction::Insert => 1,
            StoreAction::Remove => 2,
        }
    }

    /// Reads an operation from its byte; a byte that names none is refused
    /// with the byte itself.
    pub fn from_tag(code: u8) -> (parsed: Result<StoreAction, InvalidAction>)
        ensures
            match parsed {
                Ok(action) => store_action_of(code) == Some(action),
                Err(e) => store_action_of(code) is None && e.value == code,
            },
    {
        if code == 0 {
            Ok(StoreAction::Get)
        } else if code == 1 {
            Ok(StoreAction::Insert)
        } else if code == 2 {
            Ok(StoreAction::Remove)
        } else {
            Err(InvalidAction { value: code })
        }
    }
}

impl ListAction {
    /// The byte that stands for this operation on the wire.
    pub fn tag(&self) -> (code: u8)
        ensures
            code == list_tag(*self),
    {
        match self {
            ListAction::Get => 0,
            ListAction::Push => 1,
            ListAction::Remove => 2,
        }
    }

    /// Reads an operation from its byte; a byte that names none is refused
    /// with the byte itself.
    pub fn from_tag(code: u8) -> (parsed: Result<ListAction, InvalidAction>)
        ensures
            match parsed {
                Ok(action) => list_action_of(code) == Some(action),
                Err(e) => list_action_of(code) is None && e.value == code,
            },
    {
        if code == 0 {
            Ok(ListAction::Get)
        } else if code == 1 {
            Ok(ListAction::Push)
        } else if code == 2 {
            Ok(ListAction::Remove)
        } else {
            Err(InvalidAction { value: code })
        }
    }
}

/// Reading back the tag of a database operation gives that operation.
pub proof fn lemma_store_tag_round_trip(action: StoreAction)
    ensures
        store_action_of(store_tag(action)) == Some(action),
{
}

/// A byte is read as a database operation exactly when it is below the
/// operation count, and then it is that operation's tag.
pub proof fn lemma_store_tag_decoded(code: u8)
    ensures
        store_action_of(code) is Some <==> code < ACTION_COUNT,
        store_action_of(code) matches Some(action) ==> store_tag(action) == code,
{
}

/// Reading back the tag of a list operation gives that operation.
pub proof fn lemma_list_tag_round_trip(action: ListAction)
    ensures
        list_action_of(list_tag(action)) == Some(action),
{
}

/// A byte is read as a list operation exactly when it is below the
/// operation count, and then it is that operation's tag.
pub proof fn lemma_list_tag_decoded(code: u8)
    ensures
        list_action_of(code) is Some <==> code < ACTION_COUNT,
        list_action_of(code) matches Some(action) ==> list_tag(action) == code,
{
}

} // verus!
