//! The projects handlers' steps in the library, run on inputs and on store replies that
//! each test builds itself. Where a test bears the name of an HTTP scenario of the
//! server, it checks the library's part of that scenario: what the first step reads
//! from the request and how the last step answers the store's reply. What the store
//! then holds is the server's part and is not checked here.

use bagel::error::{ApiError, StoreError};
use bagel::listing::Timestamp;
use bagel::projects::{self, Project, ProjectInput};

fn project(id: i64, name: &str, updated: i64) -> Project {
    Project {
        id,
        name: name.to_string(),
        description: String::new(),
        created_at: Timestamp { secs: 1, nanos: 0 },
        updated_at: Timestamp { secs: updated, nanos: 0 },
    }
}

fn error_of(err: ApiError) -> (u16, String) {
    let response = err.into_response();
    (response.status, response.body.error)
}

#[test]
fn project_crud() {
    let valid =
        projects::create(ProjectInput { name: "  Bagel ".to_string(), description: String::new() })
            .unwrap();
    assert_eq!(valid.name, "Bagel");
    assert_eq!(valid.description, "");
    let (status, created) = projects::created(Ok(project(1, &valid.name, 1))).unwrap();
    assert_eq!(status, 201);
    assert_eq!(created.name, "Bagel");

    let fetched = projects::fetch(Ok(Some(created.clone()))).unwrap();
    assert_eq!(fetched.id, created.id);

    let (_, valid) = projects::update(
        1,
        ProjectInput { name: "Bagel 2".to_string(), description: "Everything".to_string() },
    )
    .unwrap();
    let row = Project { description: valid.description.clone(), ..project(1, &valid.name, 2) };
    let updated = projects::updated(Ok(Some(row))).unwrap();
    assert_eq!(updated.name, "Bagel 2");
    assert_eq!(updated.description, "Everything");
    assert_eq!(updated.created_at, created.created_at);

    let listed = projects::list(Ok(vec![updated.clone()])).unwrap();
    assert_eq!(listed.len(), 1);
    assert_eq!(listed[0].id, updated.id);
    assert_eq!(listed[0].name, "Bagel 2");
    assert_eq!(listed[0].description, "Everything");
    assert_eq!(listed[0].created_at, updated.created_at);
    assert_eq!(listed[0].updated_at, updated.updated_at);

    assert_eq!(projects::remove(Ok(1)).unwrap(), 204);
    let (status, message) = error_of(projects::fetch(Ok(None)).unwrap_err());
    assert_eq!(status, 404);
    assert_eq!(message, "project not found");
}

#[test]
fn missing_project_is_404() {
    assert_eq!(error_of(projects::updated(Ok(None)).unwrap_err()).0, 404);
    assert_eq!(error_of(projects::remove(Ok(0)).unwrap_err()).0, 404);
}

#[test]
fn empty_project_name_is_rejected() {
    let err = projects::create(ProjectInput { name: " ".to_string(), description: "d".to_string() })
        .unwrap_err();
    let (status, message) = error_of(err);
    assert_eq!(status, 422);
    assert_eq!(message, "name must not be empty");
}

#[test]
fn projects_list_newest_first() {
    let rows = vec![project(1, "a", 5), project(2, "b", 7), project(3, "c", 5)];
    let listed = projects::list(Ok(rows)).unwrap();
    let ids: Vec<i64> = listed.iter().map(|p| p.id).collect();
    assert_eq!(ids, vec![2, 3, 1]);
}

#[test]
fn project_store_failures_are_500() {
    let fk = StoreError::ForeignKeyViolation("constraint".to_string());
    let (status, message) = error_of(projects::created(Err(fk)).unwrap_err());
    assert_eq!(status, 500);
    assert_eq!(message, "internal server error");
    let other = StoreError::Other("busy".to_string());
    assert!(matches!(projects::list(Err(other)).unwrap_err(), ApiError::Database(m) if m == "busy"));
}
