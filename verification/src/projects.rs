//! Projects: `/api/projects`. Deleting a project keeps its notes; they become
//! unassigned.
//!
//! Each handler reads its input, lets the store run one statement and answers. The
//! reading of the input and the answer are decided here; the statement runs outside.

use vstd::prelude::*;

use crate::error::{ApiError, StoreError, CREATED, NO_CONTENT};
use crate::notes::Note;
use crate::listing::{insert_newest_first, newest_first, Listed, Rank, Timestamp};
use crate::text::{trim, trimmed};

verus! {

broadcast use vstd::seq_lib::group_to_multiset_ensures, vstd::multiset::group_multiset_axioms;

/// A stored project.
#[derive(Clone, Debug)]
pub struct Project {
    pub id: i64,
    pub name: String,
    pub description: String,
    pub created_at: Timestamp,
    pub updated_at: Timestamp,
}

/// The body of `POST /api/projects` and `PUT /api/projects/{id}`. A missing
/// `description` reads as the empty string.
#[derive(Clone, Debug)]
pub struct ProjectInput {
    pub name: String,
    pub description: String,
}

impl Listed for Project {
    open spec fn spec_rank(&self) -> Rank {
        (self.updated_at.secs, self.updated_at.nanos, self.id)
    }

    fn rank(&self) -> (r: Rank) {
        (self.updated_at.secs, self.updated_at.nanos, self.id)
    }
}

/// What validating `input` gives: the input with its name trimmed, or, exactly when
/// the trimmed name is empty, `Validation("name must not be empty")`.
pub open spec fn validated(input: ProjectInput, r: Result<ProjectInput, ApiError>) -> bool {
    &&& trim(input.name@).len() == 0 <==> r is Err
    &&& r matches Ok(v) ==> v.name@ == trim(input.name@) && v.description == input.description
    &&& r matches Err(e) ==> (e matches ApiError::Validation(m) && m@
        == "name must not be empty"@)
}

impl ProjectInput {
    /// The input with its name trimmed, or why it is refused: the trimmed name is
    /// empty.
    pub fn validate(self) -> (r: Result<Self, ApiError>)
        ensures
            validated(self, r),
    {
        let name = trimmed(self.name.as_str());
        if name.as_str().is_empty() {
            return Err(ApiError::Validation("name must not be empty"));
        }
        Ok(ProjectInput { name, ..self })
    }
}

/// Answers `GET /api/projects` from all stored projects: all of them, most recently
/// updated first.
pub fn list(rows: Result<Vec<Project>, StoreError>) -> (r: Result<Vec<Project>, ApiError>)
    ensures
        rows matches Err(e) ==> r == Err::<Vec<Project>, ApiError>(
            ApiError::Database(e.message()),
        ),
        rows matches Ok(all) ==> (r matches Ok(projects) && newest_first(projects@)
            && projects@.to_multiset() == all@.to_multiset()),
        r matches Ok(projects) ==> forall|i: int, j: int|
            #![trigger projects@[i], projects@[j]]
            0 <= i < j < projects@.len() ==> ({
                let (a, b) = (projects@[i], projects@[j]);
                ||| a.updated_at.secs > b.updated_at.secs
                ||| a.updated_at.secs == b.updated_at.secs && a.updated_at.nanos
                    > b.updated_at.nanos
                ||| a.updated_at.secs == b.updated_at.secs && a.updated_at.nanos
                    == b.updated_at.nanos && a.id >= b.id
            }),
{
    match rows {
        Err(e) => Err(ApiError::from(e)),
        Ok(all) => {
            let ghost original = all@;
            let mut rest = all;
            let mut projects: Vec<Project> = Vec::new();
            while rest.len() > 0
                invariant
                    newest_first(projects@),
                    projects@.to_multiset().add(rest@.to_multiset()) == original.to_multiset(),
                decreases rest.len(),
            {
                let ghost before = rest@;
                let project = rest.pop().unwrap();
                assert(before == rest@.push(project));
                insert_newest_first(&mut projects, project);
            }
            proof {
                newest_first_projects_by_update_time(projects@);
            }
            Ok(projects)
        },
    }
}

/// The first step of `POST /api/projects`: the values that the insert binds, or the
/// answer to a refused input, in which case no statement runs.
pub fn create(input: ProjectInput) -> (r: Result<ProjectInput, ApiError>)
    ensures
        validated(input, r),
        trim(input.name@).len() > 0 ==> (r matches Ok(v) && v.name@ == trim(input.name@)
            && v.description == input.description),
        trim(input.name@).len() == 0 ==> (r matches Err(ApiError::Validation(m)) && m@
            == "name must not be empty"@),
{
    input.validate()
}

/// What the first step of `PUT /api/projects/{id}` gives: the id and the validated
/// input, or the answer to a refused input.
pub open spec fn update_step(
    id: i64,
    input: ProjectInput,
    r: Result<(i64, ProjectInput), ApiError>,
) -> bool {
    &&& validated(
        input,
        match r {
            Ok(w) => Ok::<ProjectInput, ApiError>(w.1),
            Err(e) => Err(e),
        },
    )
    &&& r matches Ok(w) ==> w.0 == id
}

/// The first step of `PUT /api/projects/{id}`: the id and the values that the update
/// binds, or the answer to a refused input, in which case no statement runs.
pub fn update(id: i64, input: ProjectInput) -> (r: Result<(i64, ProjectInput), ApiError>)
    ensures
        update_step(id, input, r),
        trim(input.name@).len() > 0 ==> (r matches Ok(w) && w.0 == id && w.1.name@ == trim(
            input.name@,
        ) && w.1.description == input.description),
        trim(input.name@).len() == 0 ==> (r matches Err(ApiError::Validation(m)) && m@
            == "name must not be empty"@),
{
    match input.validate() {
        Ok(values) => Ok((id, values)),
        Err(e) => Err(e),
    }
}

/// How `POST /api/projects` answers once the store has run the insert: `201 Created`
/// with the stored row, or the store's failure.
pub open spec fn created_answer(
    inserted: Result<Project, StoreError>,
    r: Result<(u16, Project), ApiError>,
) -> bool {
    match inserted {
        Ok(project) => r == Ok::<(u16, Project), ApiError>((CREATED, project)),
        Err(e) => r == Err::<(u16, Project), ApiError>(ApiError::Database(e.message())),
    }
}

/// The last step of `POST /api/projects`: answers from what the store inserted.
pub fn created(inserted: Result<Project, StoreError>) -> (r: Result<(u16, Project), ApiError>)
    ensures
        created_answer(inserted, r),
{
    match inserted {
        Ok(project) => Ok((CREATED, project)),
        Err(e) => Err(ApiError::from(e)),
    }
}

/// How `GET /api/projects/{id}` and the last step of `PUT /api/projects/{id}` answer
/// from the row that the store found or updated: the row as it is stored, or not
/// found.
pub open spec fn fetch_answer(
    found: Result<Option<Project>, StoreError>,
    r: Result<Project, ApiError>,
) -> bool {
    match found {
        Ok(Some(project)) => r == Ok::<Project, ApiError>(project),
        Ok(None) => r matches Err(ApiError::NotFound(resource)) && resource@ == "project"@,
        Err(e) => r == Err::<Project, ApiError>(ApiError::Database(e.message())),
    }
}

/// Answers `GET /api/projects/{id}` from the row that the store found, if any.
pub fn fetch(found: Result<Option<Project>, StoreError>) -> (r: Result<Project, ApiError>)
    ensures
        fetch_answer(found, r),
{
    match found {
        Ok(Some(project)) => Ok(project),
        Ok(None) => Err(ApiError::NotFound("project")),
        Err(e) => Err(ApiError::from(e)),
    }
}

/// The last step of `PUT /api/projects/{id}`: answers from the row that the store
/// updated, if any.
pub fn updated(reply: Result<Option<Project>, StoreError>) -> (r: Result<Project, ApiError>)
    ensures
        fetch_answer(reply, r),
{
    match reply {
        Ok(Some(project)) => Ok(project),
        Ok(None) => Err(ApiError::NotFound("project")),
        Err(e) => Err(ApiError::from(e)),
    }
}

/// How `DELETE /api/projects/{id}` answers from the number of rows that the store
/// deleted: `204 No Content`, or not found when none was.
pub open spec fn remove_answer(deleted: Result<u64, StoreError>, r: Result<u16, ApiError>) -> bool {
    match deleted {
        Ok(n) => if n == 0 {
            r matches Err(ApiError::NotFound(resource)) && resource@ == "project"@
        } else {
            r == Ok::<u16, ApiError>(NO_CONTENT)
        },
        Err(e) => r == Err::<u16, ApiError>(ApiError::Database(e.message())),
    }
}

/// Answers `DELETE /api/projects/{id}` from the number of rows that the store
/// deleted. The store keeps the project's notes, unassigned.
pub fn remove(deleted: Result<u64, StoreError>) -> (r: Result<u16, ApiError>)
    ensures
        remove_answer(deleted, r),
{
    match deleted {
        Ok(0) => Err(ApiError::NotFound("project")),
        Ok(_) => Ok(NO_CONTENT),
        Err(e) => Err(ApiError::from(e)),
    }
}

/// What the store replies to inserting `values` into the projects `table`, by id:
/// `row` is a new row under an id not yet taken, holding the values, created and
/// updated at the same instant. The table then holds it under its id.
pub open spec fn inserts(table: Map<i64, Project>, values: ProjectInput, row: Project) -> bool {
    &&& !table.contains_key(row.id)
    &&& row.name == values.name
    &&& row.description == values.description
    &&& row.created_at == row.updated_at
}

/// What the store replies to selecting the project `id` from `table`.
pub open spec fn select(table: Map<i64, Project>, id: i64) -> Option<Project> {
    if table.contains_key(id) {
        Some(table[id])
    } else {
        None
    }
}

/// What the store replies to updating the project `id` of `table` with `values`:
/// none when there is no such project; else the project with the values, under the
/// same id and with the same creation time. The table then holds the reply under `id`.
pub open spec fn updates(
    table: Map<i64, Project>,
    id: i64,
    values: ProjectInput,
    reply: Option<Project>,
) -> bool {
    match reply {
        None => !table.contains_key(id),
        Some(row) => {
            &&& table.contains_key(id)
            &&& row.id == id
            &&& row.name == values.name
            &&& row.description == values.description
            &&& row.created_at == table[id].created_at
        },
    }
}

/// What the store replies to deleting the project `id` of `table`: the number of rows
/// deleted. The table then no longer holds `id`.
pub open spec fn deletes(table: Map<i64, Project>, id: i64) -> u64 {
    if table.contains_key(id) {
        1
    } else {
        0
    }
}

/// A project reads back as it was created: when `create` accepted `input` and the
/// store inserted `row` for the values it gave, the create answers `201` with `row`, a
/// later fetch of its id answers `row`, and `row` holds the trimmed name and the
/// description of `input`.
pub proof fn fetch_after_create(
    table: Map<i64, Project>,
    input: ProjectInput,
    step: Result<ProjectInput, ApiError>,
    row: Project,
    created: Result<(u16, Project), ApiError>,
    fetched: Result<Project, ApiError>,
)
    requires
        validated(input, step),
        match step {
            Ok(values) => inserts(table, values, row),
            Err(_) => false,
        },
        created_answer(Ok(row), created),
        fetch_answer(Ok(select(table.insert(row.id, row), row.id)), fetched),
    ensures
        trim(input.name@).len() > 0,
        created == Ok::<(u16, Project), ApiError>((CREATED, row)),
        fetched == Ok::<Project, ApiError>(row),
        row.name@ == trim(input.name@),
        row.description == input.description,
        row.created_at == row.updated_at,
{
}

/// A project reads back as it was updated: when `update` accepted `input` for the
/// project `id` and the store updated that project with the values it gave, the update
/// answers the new row, a later fetch answers the same row, which holds the trimmed
/// name and the description of `input`, and the project's creation time is kept.
pub proof fn fetch_after_update(
    table: Map<i64, Project>,
    id: i64,
    input: ProjectInput,
    step: Result<(i64, ProjectInput), ApiError>,
    row: Project,
    answered: Result<Project, ApiError>,
    fetched: Result<Project, ApiError>,
)
    requires
        update_step(id, input, step),
        match step {
            Ok(w) => updates(table, w.0, w.1, Some(row)),
            Err(_) => false,
        },
        fetch_answer(Ok(Some(row)), answered),
        fetch_answer(Ok(select(table.insert(id, row), id)), fetched),
    ensures
        trim(input.name@).len() > 0,
        answered == Ok::<Project, ApiError>(row),
        fetched == Ok::<Project, ApiError>(row),
        row.id == id,
        row.name@ == trim(input.name@),
        row.description == input.description,
        row.created_at == table[id].created_at,
{
}

/// Deleting undoes creating: after the store deleted the project `id`, the delete
/// answered `204` exactly when the project existed, and a later fetch of `id` answers
/// not found.
pub proof fn fetch_after_remove(
    table: Map<i64, Project>,
    id: i64,
    removed: Result<u16, ApiError>,
    fetched: Result<Project, ApiError>,
)
    requires
        remove_answer(Ok(deletes(table, id)), removed),
        fetch_answer(Ok(select(table.remove(id), id)), fetched),
    ensures
        table.contains_key(id) <==> removed == Ok::<u16, ApiError>(NO_CONTENT),
        !table.contains_key(id) ==> (removed matches Err(ApiError::NotFound(resource))
            && resource@ == "project"@),
        fetched matches Err(ApiError::NotFound(resource)) && resource@ == "project"@,
{
}

/// A note as it is kept when the project `project_id` is deleted: a note of that
/// project loses its project; any other note stays as it is.
pub open spec fn unassigned(note: Note, project_id: i64) -> Note {
    if note.project_id == Some(project_id) {
        Note { project_id: None, ..note }
    } else {
        note
    }
}

/// The notes `table` as the store keeps it when the project `project_id` is deleted:
/// every note stays, and the notes of that project become unassigned.
pub open spec fn notes_after_delete(notes: Map<i64, Note>, project_id: i64) -> Map<i64, Note> {
    Map::new(|id: i64| notes.contains_key(id), |id: i64| unassigned(notes[id], project_id))
}

/// Deleting a project keeps its notes: after the store deleted the project
/// `project_id`, a fetch of any note that was stored answers that note, with the same
/// id, title, body and times, and without a project if it was in the deleted one.
pub proof fn deleting_a_project_keeps_its_notes(
    notes: Map<i64, Note>,
    project_id: i64,
    note_id: i64,
    fetched: Result<Note, ApiError>,
)
    requires
        notes.contains_key(note_id),
        crate::notes::fetch_answer(
            Ok(crate::notes::select(notes_after_delete(notes, project_id), note_id)),
            fetched,
        ),
    ensures
        fetched matches Ok(note) && note.id == notes[note_id].id && note.title
            == notes[note_id].title && note.body == notes[note_id].body && note.created_at
            == notes[note_id].created_at && note.updated_at == notes[note_id].updated_at
            && if notes[note_id].project_id == Some(project_id) {
            note.project_id is None
        } else {
            note.project_id == notes[note_id].project_id
        },
{
}

/// A project is ranked by when it was last updated, then by its id.
pub proof fn project_rank_is_update_time_then_id(project: Project)
    ensures
        project.spec_rank() == (project.updated_at.secs, project.updated_at.nanos, project.id),
{
}

/// A list of projects in the order that answers `GET /api/projects` has each project
/// updated later than every project after it, or at the same instant with an id at
/// least as high.
pub proof fn newest_first_projects_by_update_time(projects: Seq<Project>)
    requires
        newest_first(projects),
    ensures
        forall|i: int, j: int|
            #![trigger projects[i], projects[j]]
            0 <= i < j < projects.len() ==> ({
                let (a, b) = (projects[i], projects[j]);
                ||| a.updated_at.secs > b.updated_at.secs
                ||| a.updated_at.secs == b.updated_at.secs && a.updated_at.nanos
                    > b.updated_at.nanos
                ||| a.updated_at.secs == b.updated_at.secs && a.updated_at.nanos
                    == b.updated_at.nanos && a.id >= b.id
            }),
{
    assert forall|i: int, j: int|
        #![trigger projects[i], projects[j]]
        0 <= i < j < projects.len() implies {
        let (a, b) = (projects[i], projects[j]);
        ||| a.updated_at.secs > b.updated_at.secs
        ||| a.updated_at.secs == b.updated_at.secs && a.updated_at.nanos > b.updated_at.nanos
        ||| a.updated_at.secs == b.updated_at.secs && a.updated_at.nanos == b.updated_at.nanos
            && a.id >= b.id
    } by {
        assert(crate::listing::listed_before(projects[i].spec_rank(), projects[j].spec_rank()));
    }
}

/// Reading a project's input accepts every name that is not blank, keeping the
/// trimmed name and the description, and refuses exactly the blank ones.
pub proof fn validation_accepts_every_name_that_is_not_blank(
    input: ProjectInput,
    r: Result<ProjectInput, ApiError>,
)
    requires
        validated(input, r),
    ensures
        trim(input.name@).len() > 0 ==> (r matches Ok(v) && v.name@ == trim(input.name@)
            && v.description == input.description),
        trim(input.name@).len() == 0 ==> (r matches Err(ApiError::Validation(m)) && m@
            == "name must not be empty"@),
{
}

/// The first step of an update accepts every name that is not blank, whatever the
/// description, keeping the id, the trimmed name and the description, and refuses
/// exactly the blank names.
pub proof fn update_accepts_every_name_that_is_not_blank(
    id: i64,
    input: ProjectInput,
    r: Result<(i64, ProjectInput), ApiError>,
)
    requires
        update_step(id, input, r),
    ensures
        trim(input.name@).len() > 0 ==> (r matches Ok(w) && w.0 == id && w.1.name@ == trim(
            input.name@,
        ) && w.1.description == input.description),
        trim(input.name@).len() == 0 ==> (r matches Err(ApiError::Validation(m)) && m@
            == "name must not be empty"@),
{
}

/// What each handler answers from the store's reply: a stored row is handed on as it
/// is (with `201` for a create, `204` for a delete of at least one row), a missing row
/// is `404 project not found`, and any failure is a store failure carrying its
/// description.
pub proof fn answers_follow_the_store(
    inserted: Result<Project, StoreError>,
    created: Result<(u16, Project), ApiError>,
    found: Result<Option<Project>, StoreError>,
    fetched: Result<Project, ApiError>,
    deleted: Result<u64, StoreError>,
    removed: Result<u16, ApiError>,
)
    requires
        created_answer(inserted, created),
        fetch_answer(found, fetched),
        remove_answer(deleted, removed),
    ensures
        inserted matches Ok(p) ==> created == Ok::<(u16, Project), ApiError>((201, p)),
        inserted matches Err(e) ==> created == Err::<(u16, Project), ApiError>(
            ApiError::Database(e.message()),
        ),
        found matches Ok(Some(p)) ==> fetched == Ok::<Project, ApiError>(p),
        found == Ok::<Option<Project>, StoreError>(None) ==> (fetched matches Err(
            ApiError::NotFound(res),
        ) && res@ == "project"@),
        found matches Err(e) ==> fetched == Err::<Project, ApiError>(
            ApiError::Database(e.message()),
        ),
        deleted matches Ok(k) ==> (k > 0 ==> removed == Ok::<u16, ApiError>(204)),
        deleted == Ok::<u64, StoreError>(0) ==> (removed matches Err(ApiError::NotFound(res))
            && res@ == "project"@),
        deleted matches Err(e) ==> removed == Err::<u16, ApiError>(
            ApiError::Database(e.message()),
        ),
{
}

} // verus!
