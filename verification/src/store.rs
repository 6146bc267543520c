//! The store: an id counter and a hash map from id to note, behind four
//! operations. Every operation's effect is stated as the matching transition
//! of [`crate::model`].
//!
//! The store is the single owner of its notes: callers receive copies, so
//! nothing outside these operations can observe or cause a change. A service
//! wraps one store in a lock and calls one operation at a time while the
//! lock is held; the contracts here then describe each linearized step.

use std::collections::HashMap;

use vstd::prelude::*;

use crate::model::{
    create_id, create_model, delete_model, empty_store, read_result, update_model, StoreModel,
};
use crate::note::{Note, NoteError};

verus! {

broadcast use vstd::std_specs::hash::group_hash_axioms;

/// The shared mutable state of the service: a monotonically increasing id
/// counter and the mapping from id to note. `id` holds the last id handed
/// out, so the next create returns `id + 1`.
pub struct AppState {
    id: u32,
    data: HashMap<u32, Note>,
}

impl View for AppState {
    type V = StoreModel;

    closed spec fn view(&self) -> StoreModel {
        StoreModel { next_id: self.id as nat, notes: self.data@ }
    }
}

impl AppState {
    /// An empty store: no notes, counter at zero.
    pub fn new() -> (s: Self)
        ensures
            s@ == empty_store(),
    {
        AppState { id: 0, data: HashMap::new() }
    }

    /// Stores `note` under a fresh id and returns that id. Never fails; the
    /// counter advances permanently, even if the note is later deleted. The
    /// one machine limit: the counter must not yet have exhausted the id
    /// space.
    pub fn create_note(&mut self, note: Note) -> (id: u32)
        requires
            old(self)@.next_id < u32::MAX,
        ensures
            id == create_id(old(self)@),
            final(self)@ == create_model(old(self)@, note),
    {
        let new_id = self.id + 1;
        self.data.insert(new_id, note);
        self.id = new_id;
        new_id
    }

    /// The last id handed out, zero on a fresh store; the next create
    /// returns one more. Callers that cannot see the ghost state use this to
    /// test whether the id space is exhausted before a create.
    pub fn last_id(&self) -> (r: u32)
        ensures
            r == self@.next_id,
    {
        self.id
    }

    /// Returns a copy of the note stored under `id`, or `NotFound` if no
    /// note is stored there — an id never allocated, or one whose note was
    /// deleted. The store is unchanged either way.
    pub fn read_note(&self, id: u32) -> (r: Result<Note, NoteError>)
        ensures
            r == read_result(self@, id),
    {
        match self.data.get(&id) {
            Some(n) => Ok(n.clone()),
            None => Err(NoteError::NotFound),
        }
    }

    /// Unconditionally stores `note` under `id`, creating the slot if it is
    /// absent (upsert). The id counter is not touched, so an update at an id
    /// above the counter plants a key the counter knows nothing about; that
    /// quirk is deliberate and documented in [`crate::model::update_model`].
    pub fn update_note(&mut self, id: u32, note: Note)
        ensures
            final(self)@ == update_model(old(self)@, id, note),
    {
        self.data.insert(id, note);
    }

    /// Removes the entry at `id` if present; succeeds whether or not it was
    /// there. The id counter is not touched, so the id is never handed out
    /// again.
    pub fn delete_note(&mut self, id: u32)
        ensures
            final(self)@ == delete_model(old(self)@, id),
    {
        self.data.remove(&id);
    }
}

impl Default for AppState {
    fn default() -> (s: Self)
        ensures
            s@ == empty_store(),
    {
        AppState::new()
    }
}

/// The static text served at the base path: the four operation names.
pub fn root_message() -> (r: String)
    ensures
        r@ == "Available methods are create, get, update, delete"@,
{
    broadcast use vstd::string::group_string_axioms;

    "Available methods are create, get, update, delete".to_string()
}

} // verus!
