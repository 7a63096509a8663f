//! A list served over channels: clients push values, read them by index
//! and take them out by index.

use vstd::prelude::*;
use core::marker::PhantomData;
use crate::action::ListAction;

verus! {

/// A list of values in the order they were pushed.
pub struct DistributedList<T> {
    list: Vec<T>,
}

impl<T> View for DistributedList<T> {
    type V = Seq<T>;

    /// The values, first pushed first.
    closed spec fn view(&self) -> Seq<T> {
        self.list@
    }
}

impl<T> Default for DistributedList<T> {
    /// An empty list.
    fn default() -> (list: Self)
        ensures
            list@ == Seq::<T>::empty(),
    {
        DistributedList { list: Vec::new() }
    }
}

/// One request to the list, with its argument.
pub enum ListRequest<T> {
    Get { index: usize },
    Push { value: T },
    Remove { index: usize },
}

/// The answer to a request: nothing for a push, the value found (if any)
/// for a read, the value taken out for a removal.
pub enum ListReply<T> {
    Pushed,
    Got(Option<T>),
    Removed(T),
}

impl<T> ListRequest<T> {
    /// The operation that the request asks for.
    pub open spec fn spec_action(&self) -> ListAction {
        match self {
            ListRequest::Get { .. } => ListAction::Get,
            ListRequest::Push { .. } => ListAction::Push,
            ListRequest::Remove { .. } => ListAction::Remove,
        }
    }

    /// The operation that the request asks for, whose tag opens it on the
    /// wire.
    pub fn action(&self) -> (action: ListAction)
        ensures
            action == self.spec_action(),
    {
        match self {
            ListRequest::Get { .. } => ListAction::Get,
            ListRequest::Push { .. } => ListAction::Push,
            ListRequest::Remove { .. } => ListAction::Remove,
        }
    }
}

impl<T> DistributedList<T> {
    /// The number of values in the list.
    pub fn len(&self) -> (count: usize)
        ensures
            count == self@.len(),
    {
        self.list.len()
    }
}

impl<T: Clone> DistributedList<T> {
    /// Appends `value` at the end.
    pub fn push(&mut self, value: T)
        ensures
            final(self)@ == old(self)@.push(value),
    {
        self.list.push(value);
    }

    /// A copy of the value at `index`, or `None` past the end.
    pub fn get(&self, index: usize) -> (found: Option<T>)
        ensures
            match found {
                Some(value) => index < self@.len() && cloned(self@[index as int], value),
                None => index >= self@.len(),
            },
    {
        if index < self.list.len() {
            Some(self.list[index].clone())
        } else {
            None
        }
    }

    /// Takes out the value at `index`; the values after it move one place
    /// forward. There is no value to take past the end.
    pub fn remove(&mut self, index: usize) -> (taken: T)
        requires
            index < old(self)@.len(),
        ensures
            taken == old(self)@[index as int],
            final(self)@ == old(self)@.remove(index as int),
    {
        self.list.remove(index)
    }

    /// Answers one request, as the serving loop does for each tag it reads.
    /// A removal past the end has no answer.
    pub fn serve(&mut self, request: ListRequest<T>) -> (reply: ListReply<T>)
        requires
            request matches ListRequest::Remove { index } ==> index < old(self)@.len(),
        ensures
            match request {
                ListRequest::Get { index } => final(self)@ == old(self)@ && match reply {
                    ListReply::Got(Some(value)) => index < old(self)@.len() && cloned(old(self)@[index as int], value),
                    ListReply::Got(None) => index >= old(self)@.len(),
                    _ => false,
                },
                ListRequest::Push { value } => final(self)@ == old(self)@.push(value) && reply is Pushed,
                ListRequest::Remove { index } => final(self)@ == old(self)@.remove(index as int)
                    && reply == ListReply::Removed(old(self)@[index as int]),
            },
    {
        match request {
            ListRequest::Get { index } => ListReply::Got(self.get(index)),
            ListRequest::Push { value } => {
                self.push(value);
                ListReply::Pushed
            },
            ListRequest::Remove { index } => ListReply::Removed(self.remove(index)),
        }
    }
}

/// A client's handle on a list reached through the channel `C`.
pub struct DistributedListPeer<T, C>(pub C, PhantomData<T>);

impl<T, C> DistributedListPeer<T, C> {
    /// The channel the handle talks through.
    pub closed spec fn channel(&self) -> C {
        self.0
    }

    /// A handle that talks through `chan`.
    pub fn from(chan: C) -> (peer: Self)
        ensures
            peer.channel() == chan,
    {
        DistributedListPeer(chan, PhantomData)
    }
}

} // verus!
