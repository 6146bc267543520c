use note_store::note::{Note, NoteError};
use note_store::store::{root_message, AppState};

#[test]
fn create() {
    let mut state = AppState::new();
    let note = Note::new("test_title".to_string(), "test".to_string());
    let id = state.create_note(note.clone());
    assert_eq!(id, 1);
    let received_note = state.read_note(1).unwrap();
    assert_eq!(received_note, note);
}

#[test]
fn get() {
    let mut state = AppState::new();
    let note = Note::new("test_title".to_string(), "test".to_string());
    state.create_note(note.clone());
    let response = state.read_note(1);
    assert!(response.is_ok());
    assert_eq!(response.unwrap(), note);
}

#[test]
fn update() {
    let mut state = AppState::new();
    state.create_note(Note::new("test_title".to_string(), "test".to_string()));
    let note = Note::new("test_title".to_string(), "test_updated".to_string());
    state.update_note(1, note.clone());
    let received_note = state.read_note(1).unwrap();
    assert_eq!(received_note, note);
}

#[test]
fn delete() {
    let mut state = AppState::new();
    state.create_note(Note::new("test_title".to_string(), "test".to_string()));
    state.delete_note(1);
    assert_eq!(state.read_note(1), Err(NoteError::NotFound));
}

#[test]
fn scenario_full_lifecycle() {
    let mut state = AppState::new();
    let first = Note::new("t1".to_string(), "n1".to_string());
    let id = state.create_note(first.clone());
    assert_eq!(id, 1);
    assert_eq!(state.read_note(1).unwrap(), first);
    let updated = Note::new("t1".to_string(), "n1-updated".to_string());
    state.update_note(1, updated.clone());
    assert_eq!(state.read_note(1).unwrap(), updated);
    state.delete_note(1);
    assert_eq!(state.read_note(1), Err(NoteError::NotFound));
}

#[test]
fn create_ids_monotonic_and_unique() {
    let mut state = AppState::new();
    let a = state.create_note(Note::new("a".to_string(), "1".to_string()));
    let b = state.create_note(Note::new("b".to_string(), "2".to_string()));
    let c = state.create_note(Note::new("c".to_string(), "3".to_string()));
    assert_eq!((a, b, c), (1, 2, 3));
    assert!(a < b && b < c);
    // an id is never reused, even after its note is deleted
    state.delete_note(b);
    let d = state.create_note(Note::new("d".to_string(), "4".to_string()));
    assert_eq!(d, 4);
}

#[test]
fn update_upsert_fresh_id() {
    let mut state = AppState::new();
    assert_eq!(state.read_note(7), Err(NoteError::NotFound));
    let note = Note::new("planted".to_string(), "out of band".to_string());
    state.update_note(7, note.clone());
    assert_eq!(state.read_note(7).unwrap(), note);
    // the upsert did not advance the id counter
    let id = state.create_note(Note::new("next".to_string(), "".to_string()));
    assert_eq!(id, 1);
}

#[test]
fn delete_idempotent_never_created() {
    let mut state = AppState::new();
    state.delete_note(5);
    state.delete_note(5);
    assert_eq!(state.read_note(5), Err(NoteError::NotFound));
    // the store is still usable and empty
    let id = state.create_note(Note::new("x".to_string(), "y".to_string()));
    assert_eq!(id, 1);
}

#[test]
fn default_state_is_empty() {
    let mut state = AppState::default();
    assert_eq!(state.last_id(), 0);
    assert_eq!(state.read_note(1), Err(NoteError::NotFound));
    let id = state.create_note(Note::new("first".to_string(), "".to_string()));
    assert_eq!(id, 1);
    assert_eq!(state.last_id(), 1);
}

#[test]
fn read_missing_not_found() {
    let state = AppState::new();
    assert_eq!(state.read_note(0), Err(NoteError::NotFound));
    assert_eq!(state.read_note(1), Err(NoteError::NotFound));
    assert_eq!(state.read_note(u32::MAX), Err(NoteError::NotFound));
}

#[test]
fn root_message_lists_operations() {
    assert_eq!(root_message(), "Available methods are create, get, update, delete");
}

#[test]
fn note_new_and_default() {
    let n = Note::new("title".to_string(), "body".to_string());
    assert_eq!(n.title, "title");
    assert_eq!(n.note, "body");
    let d = Note::default();
    assert_eq!(d.title, "");
    assert_eq!(d.note, "");
    assert_eq!(n.clone(), n);
}
