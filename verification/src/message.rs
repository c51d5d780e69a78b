//! The message envelope: a shared, read-only, reference-counted wrapper
//! around one command value, cheap to duplicate for fan-out to many plugins.

use std::sync::Arc;
use vstd::prelude::*;

verus! {

/// One command value on its way to the attached plugins.
///
/// The payload is held behind shared ownership, so duplicating a `Message`
/// for delivery to many recipients never copies the payload, and no holder
/// can mutate another holder's view of the same logical command.
pub struct Message<T> {
    content: Arc<T>,
}

impl<T> View for Message<T> {
    type V = T;

    closed spec fn view(&self) -> T {
        *self.content
    }
}

impl<T> Message<T> {
    /// Wraps a command value, taking ownership of it.
    pub fn new(value: T) -> (m: Message<T>)
        ensures
            m@ == value,
    {
        Message { content: Arc::new(value) }
    }

    /// Wraps a value that is already shared, without adding a second
    /// indirection.
    pub fn from_shared(content: Arc<T>) -> (m: Message<T>)
        ensures
            m@ == *content,
    {
        Message { content }
    }

    /// Read access to the payload; no mutable access is ever exposed.
    pub fn as_ref(&self) -> (r: &T)
        ensures
            *r == self@,
    {
        &*self.content
    }
}

impl<T> Clone for Message<T> {
    /// Duplication shares the payload: the copy carries the same command.
    fn clone(&self) -> (m: Self)
        ensures
            m@ == self@,
    {
        Message { content: self.content.clone() }
    }
}

} // verus!
