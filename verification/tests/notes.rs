//! The notes handlers' steps in the library, run on inputs and on store replies that
//! each test builds itself. Where a test bears the name of an HTTP scenario of the
//! server, it checks the library's part of that scenario: what the first step reads
//! from the request and how the last step answers the store's reply. What the store
//! then holds is the server's part and is not checked here.

use bagel::error::{ApiError, StoreError};
use bagel::listing::Timestamp;
use bagel::notes::{self, Note, NoteFilter, NoteInput};

fn at(secs: i64) -> Timestamp {
    Timestamp { secs, nanos: 0 }
}

fn note(id: i64, title: &str, project_id: Option<i64>, updated: i64) -> Note {
    Note {
        id,
        title: title.to_string(),
        body: String::new(),
        project_id,
        created_at: at(1_700_000_000),
        updated_at: at(updated),
    }
}

fn input(title: &str, body: &str, project_id: Option<i64>) -> NoteInput {
    NoteInput {
        title: title.to_string(),
        body: body.to_string(),
        project_id,
    }
}

fn ids(notes: &[Note]) -> Vec<i64> {
    notes.iter().map(|n| n.id).collect()
}

fn error_of(err: ApiError) -> (u16, String) {
    let response = err.into_response();
    (response.status, response.body.error)
}

#[test]
fn create_returns_note() {
    let valid = notes::create(input("  Groceries ", "eggs", None)).unwrap();
    assert_eq!(valid.title, "Groceries");
    assert_eq!(valid.body, "eggs");
    let stored = note(1, &valid.title, None, 1_700_000_000);
    let (status, created) = notes::created(Ok(stored)).unwrap();
    assert_eq!(status, 201);
    assert_eq!(created.title, "Groceries");
    assert_eq!(created.created_at, created.updated_at);
}

#[test]
fn create_defaults_body_to_empty() {
    let valid = input("t", "", None).validate().unwrap();
    assert_eq!(valid.body, "");
    assert_eq!(valid.project_id, None);
}

#[test]
fn list_returns_newest_first() {
    let none = NoteFilter { project_id: None };
    assert!(notes::list(Ok(vec![]), none).unwrap().is_empty());

    // Created in the same second: the higher id comes first.
    let first = note(1, "first", None, 1_700_000_000);
    let second = note(2, "second", None, 1_700_000_000);
    let listed = notes::list(Ok(vec![first, second]), none).unwrap();
    assert_eq!(ids(&listed), vec![2, 1]);
}

#[test]
fn list_orders_by_update_time_before_id() {
    let rows = vec![
        note(1, "a", None, 30),
        note(2, "b", None, 10),
        note(3, "c", None, 20),
        Note { updated_at: Timestamp { secs: 20, nanos: 5 }, ..note(4, "d", None, 0) },
    ];
    let listed = notes::list(Ok(rows), NoteFilter { project_id: None }).unwrap();
    assert_eq!(ids(&listed), vec![1, 4, 3, 2]);
}

#[test]
fn get_returns_note() {
    let stored = note(7, "hello", None, 5);
    let fetched = notes::fetch(Ok(Some(stored.clone()))).unwrap();
    assert_eq!(fetched.id, stored.id);
    assert_eq!(fetched.title, "hello");
    assert_eq!(fetched.updated_at, stored.updated_at);
}

#[test]
fn update_changes_note() {
    let (id, valid) = notes::update(3, input("new", "new body", None)).unwrap();
    assert_eq!(id, 3);
    let row = Note { body: valid.body.clone(), ..note(3, &valid.title, None, 9) };
    let updated = notes::updated(Ok(Some(row))).unwrap();
    assert_eq!(updated.id, 3);
    assert_eq!(updated.title, "new");
    assert_eq!(updated.body, "new body");
}

#[test]
fn delete_removes_note() {
    assert_eq!(notes::remove(Ok(1)).unwrap(), 204);
    let (status, _) = error_of(notes::fetch(Ok(None)).unwrap_err());
    assert_eq!(status, 404);
}

#[test]
fn missing_note_is_404() {
    let (status, message) = error_of(notes::fetch(Ok(None)).unwrap_err());
    assert_eq!(status, 404);
    assert_eq!(message, "note not found");
    let (status, _) = error_of(notes::updated(Ok(None)).unwrap_err());
    assert_eq!(status, 404);
    let (status, _) = error_of(notes::remove(Ok(0)).unwrap_err());
    assert_eq!(status, 404);
}

#[test]
fn empty_title_is_rejected() {
    for title in ["", "   ", "\t\n", "\u{3000}\u{a0}"] {
        // The create is answered before any statement runs.
        let (status, message) = error_of(notes::create(input(title, "b", None)).unwrap_err());
        assert_eq!(status, 422);
        assert_eq!(message, "title must not be empty");
    }
    // A refused update gives no values to write, so the note keeps its title.
    let (status, message) = error_of(notes::update(1, input(" ", "", None)).unwrap_err());
    assert_eq!(status, 422);
    assert_eq!(message, "title must not be empty");
}

#[test]
fn validation_keeps_body_and_project() {
    let valid = input("\u{2003}Plan\u{85}", "  spaced  ", Some(4)).validate().unwrap();
    assert_eq!(valid.title, "Plan");
    assert_eq!(valid.body, "  spaced  ");
    assert_eq!(valid.project_id, Some(4));
    // Validating again changes nothing.
    let again = valid.clone().validate().unwrap();
    assert_eq!(again.title, valid.title);
}

#[test]
fn notes_are_filterable_by_project() {
    let rows = vec![
        note(1, "loose", None, 1),
        note(2, "filed", Some(10), 2),
        note(3, "other", Some(11), 3),
        note(4, "filed too", Some(10), 4),
    ];
    let all = notes::list(Ok(rows.clone()), NoteFilter { project_id: None }).unwrap();
    assert_eq!(ids(&all), vec![4, 3, 2, 1]);
    let bagel = notes::list(Ok(rows.clone()), NoteFilter { project_id: Some(10) }).unwrap();
    assert_eq!(ids(&bagel), vec![4, 2]);
    let nothing = notes::list(Ok(rows), NoteFilter { project_id: Some(99) }).unwrap();
    assert!(nothing.is_empty());
}

#[test]
fn note_with_unknown_project_is_rejected() {
    let fk = || StoreError::ForeignKeyViolation("FOREIGN KEY constraint failed".to_string());
    let (status, message) = error_of(notes::created(Err(fk())).unwrap_err());
    assert_eq!(status, 422);
    assert_eq!(message, "project does not exist");
    let (status, message) = error_of(notes::updated(Err(fk())).unwrap_err());
    assert_eq!(status, 422);
    assert_eq!(message, "project does not exist");
}

#[test]
fn store_failure_is_500_without_details() {
    let other = || StoreError::Other("disk I/O error".to_string());
    for err in [
        notes::list(Err(other()), NoteFilter { project_id: None }).unwrap_err(),
        notes::created(Err(other())).unwrap_err(),
        notes::fetch(Err(other())).unwrap_err(),
        notes::updated(Err(other())).unwrap_err(),
        notes::remove(Err(other())).unwrap_err(),
    ] {
        assert!(matches!(&err, ApiError::Database(m) if m == "disk I/O error"));
        let (status, message) = error_of(err);
        assert_eq!(status, 500);
        assert_eq!(message, "internal server error");
    }
}
