use vstd::prelude::*;

verus! {

/// A stored record: a title and a body (the `note` field). A plain value
/// with no identity of its own; identity is assigned by the store. Updates
/// replace the whole value, never a single field.
#[derive(Debug, PartialEq, PartialOrd)]
pub struct Note {
    pub title: String,
    pub note: String,
}

impl Note {
    pub fn new(title: String, note: String) -> (n: Self)
        ensures
            n.title == title,
            n.note == note,
    {
        Note { title, note }
    }
}

impl Clone for Note {
    fn clone(&self) -> (n: Self)
        ensures
            n == *self,
    {
        Note { title: self.title.clone(), note: self.note.clone() }
    }
}

impl Default for Note {
    fn default() -> (n: Self)
        ensures
            n.title@ == Seq::<char>::empty(),
            n.note@ == Seq::<char>::empty(),
    {
        Note { title: String::new(), note: String::new() }
    }
}

/// The one domain error: a read of an id with no note stored under it.
/// Every other operation of the store is total.
#[derive(Clone, Copy, Debug, PartialEq, Eq, Structural)]
pub enum NoteError {
    NotFound,
}

} // verus!
