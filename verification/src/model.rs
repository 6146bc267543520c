//! The mathematical model of the store, and the laws the operations obey.
//!
//! Each executable operation of [`crate::store`] states its effect as a pure
//! transition on [`StoreModel`]; the proof functions below relate those
//! transitions to one another.

use vstd::prelude::*;

use crate::note::{Note, NoteError};

verus! {

/// The abstract state of a store: the id counter and the mapping from id to
/// note. `next_id` is the number of ids handed out so far; the id of the
/// next create is `next_id + 1`.
#[verifier::ext_equal]
pub ghost struct StoreModel {
    pub next_id: nat,
    pub notes: Map<u32, Note>,
}

/// The state of a freshly constructed store: no notes, counter at zero.
pub open spec fn empty_store() -> StoreModel {
    StoreModel { next_id: 0, notes: Map::<u32, Note>::empty() }
}

/// The id that a create performed in state `m` hands out.
pub open spec fn create_id(m: StoreModel) -> nat {
    m.next_id + 1
}

/// Effect of a create: the counter advances by one and the note is stored
/// under the fresh id. The counter advances permanently, even if the note is
/// later deleted.
pub open spec fn create_model(m: StoreModel, note: Note) -> StoreModel {
    StoreModel {
        next_id: m.next_id + 1,
        notes: m.notes.insert((create_id(m) as u32), note),
    }
}

/// Effect of an update: an unconditional upsert at `id`. The slot is created
/// if absent, and the id counter is not touched, so an update at an id above
/// the counter leaves keys the counter knows nothing about.
pub open spec fn update_model(m: StoreModel, id: u32, note: Note) -> StoreModel {
    StoreModel { next_id: m.next_id, notes: m.notes.insert(id, note) }
}

/// Effect of a delete: the entry at `id` is gone, whether or not it was
/// there. The id counter is not touched.
pub open spec fn delete_model(m: StoreModel, id: u32) -> StoreModel {
    StoreModel { next_id: m.next_id, notes: m.notes.remove(id) }
}

/// What a read of `id` sees in state `m`.
pub open spec fn read_model(m: StoreModel, id: u32) -> Option<Note> {
    if m.notes.contains_key(id) {
        Some(m.notes[id])
    } else {
        None
    }
}

/// A read's outcome as the caller receives it: the stored note, or
/// `NotFound` when no note is stored under `id`.
pub open spec fn read_result(m: StoreModel, id: u32) -> Result<Note, NoteError> {
    match read_model(m, id) {
        Some(n) => Ok(n),
        None => Err(NoteError::NotFound),
    }
}

/// The state after a whole run of creates, one per note, in order.
pub open spec fn run_creates(m: StoreModel, notes: Seq<Note>) -> StoreModel
    decreases notes.len(),
{
    if notes.len() == 0 {
        m
    } else {
        run_creates(create_model(m, notes.first()), notes.drop_first())
    }
}

/// The ids handed out along a run of creates: entry `k` is the id returned
/// by the `k`-th create.
pub open spec fn run_create_ids(m: StoreModel, notes: Seq<Note>) -> Seq<nat> {
    Seq::new(notes.len(), |k: int| create_id(run_creates(m, notes.take(k))))
}

/// A run of creates advances the id counter by exactly one per note.
pub proof fn lemma_run_creates_next_id(m: StoreModel, notes: Seq<Note>)
    ensures
        run_creates(m, notes).next_id == m.next_id + notes.len(),
    decreases notes.len(),
{
    if notes.len() > 0 {
        lemma_run_creates_next_id(create_model(m, notes.first()), notes.drop_first());
    }
}

/// Monotonic unique ids: over any run of creates, the ids handed out are
/// strictly increasing in call order, and hence pairwise distinct.
pub proof fn lemma_create_ids_monotonic(m: StoreModel, notes: Seq<Note>)
    ensures
        run_create_ids(m, notes).len() == notes.len(),
        forall|i: int, j: int|
            0 <= i < j < notes.len() ==> run_create_ids(m, notes)[i] < run_create_ids(m, notes)[j],
        forall|i: int, j: int|
            0 <= i < notes.len() && 0 <= j < notes.len() && i != j ==> run_create_ids(m, notes)[i]
                != run_create_ids(m, notes)[j],
{
    assert forall|i: int, j: int| 0 <= i < j < notes.len() implies run_create_ids(m, notes)[i]
        < run_create_ids(m, notes)[j] by {
        lemma_run_creates_next_id(m, notes.take(i));
        lemma_run_creates_next_id(m, notes.take(j));
        assert(notes.take(i).len() == i);
        assert(notes.take(j).len() == j);
    }
}

/// Read-after-create: a note just created is read back unchanged, under the
/// id the create returned.
pub proof fn lemma_read_after_create(m: StoreModel, note: Note)
    ensures
        read_model(create_model(m, note), (create_id(m) as u32)) == Some(note),
{
}

/// Read-after-delete fails: create a note, delete its id, and a read of that
/// id finds nothing.
pub proof fn lemma_read_after_delete(m: StoreModel, note: Note)
    ensures
        read_model(
            delete_model(create_model(m, note), (create_id(m) as u32)),
            (create_id(m) as u32),
        ) is None,
{
}

/// Update upsert: an update at an id that a read finds absent creates the
/// slot, and a read then returns the updated note.
pub proof fn lemma_update_upsert(m: StoreModel, id: u32, note: Note)
    requires
        read_model(m, id) is None,
    ensures
        read_model(update_model(m, id, note), id) == Some(note),
{
}

/// Delete idempotence: deleting an id with no entry changes nothing, and a
/// second delete of the same id changes nothing further.
pub proof fn lemma_delete_idempotent(m: StoreModel, id: u32)
    ensures
        !m.notes.contains_key(id) ==> delete_model(m, id) == m,
        delete_model(delete_model(m, id), id) == delete_model(m, id),
{
    if !m.notes.contains_key(id) {
        assert(m.notes.remove(id) =~= m.notes);
        assert(delete_model(m, id) =~= m);
    }
    assert(m.notes.remove(id).remove(id) =~= m.notes.remove(id));
    assert(delete_model(delete_model(m, id), id) =~= delete_model(m, id));
}

} // verus!
