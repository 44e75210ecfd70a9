//! The identity of a thread.

use vstd::prelude::*;
use vstd::string::*;

verus! {

/// The identity of a thread, by its canonical text.
#[derive(Debug, PartialEq, Eq)]
pub struct ThreadId {
    text: String,
}

impl View for ThreadId {
    type V = Seq<char>;

    closed spec fn view(&self) -> Seq<char> {
        self.text@
    }
}

impl Clone for ThreadId {
    fn clone(&self) -> (copy: Self)
        ensures
            copy == *self,
    {
        ThreadId { text: self.text.clone() }
    }
}

impl ThreadId {
    /// The thread whose canonical text is `text`.
    pub fn from_canonical(text: String) -> (thread_id: Self)
        ensures
            thread_id@ == text@,
    {
        ThreadId { text }
    }

    /// The canonical text of the thread's identity.
    pub fn canonical(&self) -> (text: String)
        ensures
            text@ == self@,
    {
        self.text.clone()
    }
}

} // verus!
