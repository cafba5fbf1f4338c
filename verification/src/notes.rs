//! Notes: `/api/notes`. A note may belong to a project.
//!
//! Each handler reads its input, lets the store run one statement and answers. The
//! reading of the input and the answer are decided here; the statement runs outside.

use vstd::prelude::*;

use crate::error::{ApiError, StoreError, CREATED, NO_CONTENT};
use crate::listing::{insert_newest_first, newest_first, Listed, Rank, Timestamp};
use crate::text::{trim, trimmed};

verus! {

broadcast use vstd::seq_lib::group_to_multiset_ensures, vstd::multiset::group_multiset_axioms;

/// A stored note.
#[derive(Clone, Debug)]
pub struct Note {
    pub id: i64,
    pub title: String,
    pub body: String,
    /// The project that the note belongs to, if any.
    pub project_id: Option<i64>,
    pub created_at: Timestamp,
    pub updated_at: Timestamp,
}

/// The body of `POST /api/notes` and `PUT /api/notes/{id}`. A missing `body` reads as
/// the empty string, a missing `project_id` as none.
#[derive(Clone, Debug)]
pub struct NoteInput {
    pub title: String,
    pub body: String,
    pub project_id: Option<i64>,
}

/// The query string of `GET /api/notes`: the project whose notes are listed, or none
/// for all notes.
#[derive(Clone, Copy, Debug)]
pub struct NoteFilter {
    pub project_id: Option<i64>,
}

impl Listed for Note {
    open spec fn spec_rank(&self) -> Rank {
        (self.updated_at.secs, self.updated_at.nanos, self.id)
    }

    fn rank(&self) -> (r: Rank) {
        (self.updated_at.secs, self.updated_at.nanos, self.id)
    }
}

/// What validating `input` gives: the input with its title trimmed, or, exactly when
/// the trimmed title is empty, `Validation("title must not be empty")`.
pub open spec fn validated(input: NoteInput, r: Result<NoteInput, ApiError>) -> bool {
    &&& trim(input.title@).len() == 0 <==> r is Err
    &&& r matches Ok(v) ==> v.title@ == trim(input.title@) && v.body == input.body
        && v.project_id == input.project_id
    &&& r matches Err(e) ==> (e matches ApiError::Validation(m) && m@
        == "title must not be empty"@)
}

impl NoteInput {
    /// The input with its title trimmed, or why it is refused: the trimmed title is
    /// empty.
    pub fn validate(self) -> (r: Result<Self, ApiError>)
        ensures
            validated(self, r),
    {
        let title = trimmed(self.title.as_str());
        if title.as_str().is_empty() {
            return Err(ApiError::Validation("title must not be empty"));
        }
        Ok(NoteInput { title, body: self.body, project_id: self.project_id })
    }
}

/// Whether `filter` selects `note`.
pub open spec fn selects(filter: NoteFilter, note: Note) -> bool {
    match filter.project_id {
        Some(project_id) => note.project_id == Some(project_id),
        None => true,
    }
}

/// The rows of `rows` that `filter` selects.
pub open spec fn selected(rows: Seq<Note>, filter: NoteFilter) -> Seq<Note> {
    rows.filter(|note: Note| selects(filter, note))
}

/// What a filter lists: each stored note as often as it is stored when the filter
/// selects it, and never otherwise. Without a project, every note is selected.
pub proof fn selected_counts(rows: Seq<Note>, filter: NoteFilter, note: Note)
    ensures
        selected(rows, filter).to_multiset().count(note) == if selects(filter, note) {
            rows.to_multiset().count(note)
        } else {
            0
        },
        filter.project_id is None ==> selected(rows, filter) == rows,
    decreases rows.len(),
{
    if rows.len() == 0 {
        reveal(Seq::filter);
        assert(selected(rows, filter) =~= rows);
    } else {
        let last = rows.last();
        let init = rows.drop_last();
        selected_counts(init, filter, note);
        assert(rows == init.push(last));
        init.lemma_filter_push(last, |n: Note| selects(filter, n));
    }
}

/// Answers a failed write of a note: a reference to a project that does not exist is
/// the client's error.
fn write_failed(err: StoreError) -> (r: ApiError)
    ensures
        err matches StoreError::ForeignKeyViolation(_) ==> (r matches ApiError::Validation(m)
            && m@ == "project does not exist"@),
        err matches StoreError::Other(m) ==> r == ApiError::Database(m),
{
    match err {
        StoreError::ForeignKeyViolation(_) => ApiError::Validation("project does not exist"),
        StoreError::Other(message) => ApiError::Database(message),
    }
}

/// Answers `GET /api/notes` from all stored notes: those that `filter` selects, most
/// recently updated first.
pub fn list(rows: Result<Vec<Note>, StoreError>, filter: NoteFilter) -> (r: Result<
    Vec<Note>,
    ApiError,
>)
    ensures
        rows matches Err(e) ==> r == Err::<Vec<Note>, ApiError>(ApiError::Database(e.message())),
        rows matches Ok(all) ==> (r matches Ok(notes) && newest_first(notes@)
            && notes@.to_multiset() == selected(all@, filter).to_multiset()),
        r matches Ok(notes) ==> forall|i: int, j: int|
            #![trigger notes@[i], notes@[j]]
            0 <= i < j < notes@.len() ==> ({
                let (a, b) = (notes@[i], notes@[j]);
                ||| a.updated_at.secs > b.updated_at.secs
                ||| a.updated_at.secs == b.updated_at.secs && a.updated_at.nanos
                    > b.updated_at.nanos
                ||| a.updated_at.secs == b.updated_at.secs && a.updated_at.nanos
                    == b.updated_at.nanos && a.id >= b.id
            }),
{
    match rows {
        Err(e) => Err(ApiError::from(e)),
        Ok(all) => {
            let ghost original = all@;
            let mut rest = all;
            let mut notes: Vec<Note> = Vec::new();
            assert(rest@ =~= original);
            while rest.len() > 0
                invariant
                    newest_first(notes@),
                    notes@.to_multiset().add(selected(rest@, filter).to_multiset())
                        == selected(original, filter).to_multiset(),
                decreases rest.len(),
            {
                let ghost before = rest@;
                let note = rest.pop().unwrap();
                proof {
                    assert(before == rest@.push(note));
                    rest@.lemma_filter_push(note, |n: Note| selects(filter, n));
                }
                if selects_note(filter, &note) {
                    insert_newest_first(&mut notes, note);
                }
            }
            proof {
                reveal(Seq::filter);
                newest_first_notes_by_update_time(notes@);
            }
            Ok(notes)
        },
    }
}

/// Whether `filter` selects `note`, computed.
fn selects_note(filter: NoteFilter, note: &Note) -> (r: bool)
    ensures
        r == selects(filter, *note),
{
    match filter.project_id {
        Some(project_id) => match note.project_id {
            Some(id) => id == project_id,
            None => false,
        },
        None => true,
    }
}

/// The first step of `POST /api/notes`: the values that the insert binds, or the
/// answer to a refused input, in which case no statement runs.
pub fn create(input: NoteInput) -> (r: Result<NoteInput, ApiError>)
    ensures
        validated(input, r),
        trim(input.title@).len() > 0 ==> (r matches Ok(v) && v.title@ == trim(input.title@)
            && v.body == input.body && v.project_id == input.project_id),
        trim(input.title@).len() == 0 ==> (r matches Err(ApiError::Validation(m)) && m@
            == "title must not be empty"@),
{
    input.validate()
}

/// What the first step of `PUT /api/notes/{id}` gives: the id and the validated
/// input, or the answer to a refused input.
pub open spec fn update_step(id: i64, input: NoteInput, r: Result<(i64, NoteInput), ApiError>) -> bool {
    &&& validated(
        input,
        match r {
            Ok(w) => Ok::<NoteInput, ApiError>(w.1),
            Err(e) => Err(e),
        },
    )
    &&& r matches Ok(w) ==> w.0 == id
}

/// The first step of `PUT /api/notes/{id}`: the id and the values that the update
/// binds, or the answer to a refused input, in which case no statement runs.
pub fn update(id: i64, input: NoteInput) -> (r: Result<(i64, NoteInput), ApiError>)
    ensures
        update_step(id, input, r),
        trim(input.title@).len() > 0 ==> (r matches Ok(w) && w.0 == id && w.1.title@ == trim(
            input.title@,
        ) && w.1.body == input.body && w.1.project_id == input.project_id),
        trim(input.title@).len() == 0 ==> (r matches Err(ApiError::Validation(m)) && m@
            == "title must not be empty"@),
{
    match input.validate() {
        Ok(values) => Ok((id, values)),
        Err(e) => Err(e),
    }
}

/// How `POST /api/notes` answers once the store has run the insert: `201 Created`
/// with the stored row; a reference to a project that does not exist is the client's
/// error; any other failure is the store's.
pub open spec fn created_answer(
    inserted: Result<Note, StoreError>,
    r: Result<(u16, Note), ApiError>,
) -> bool {
    match inserted {
        Ok(note) => r == Ok::<(u16, Note), ApiError>((CREATED, note)),
        Err(StoreError::ForeignKeyViolation(_)) => r matches Err(ApiError::Validation(m)) && m@
            == "project does not exist"@,
        Err(StoreError::Other(m)) => r == Err::<(u16, Note), ApiError>(ApiError::Database(m)),
    }
}

/// The last step of `POST /api/notes`: answers from what the store inserted.
pub fn created(inserted: Result<Note, StoreError>) -> (r: Result<(u16, Note), ApiError>)
    ensures
        created_answer(inserted, r),
{
    match inserted {
        Ok(note) => Ok((CREATED, note)),
        Err(e) => Err(write_failed(e)),
    }
}

/// How `GET /api/notes/{id}` answers from the row that the store found: the row as it
/// is stored, or not found.
pub open spec fn fetch_answer(found: Result<Option<Note>, StoreError>, r: Result<Note, ApiError>) -> bool {
    match found {
        Ok(Some(note)) => r == Ok::<Note, ApiError>(note),
        Ok(None) => r matches Err(ApiError::NotFound(resource)) && resource@ == "note"@,
        Err(e) => r == Err::<Note, ApiError>(ApiError::Database(e.message())),
    }
}

/// Answers `GET /api/notes/{id}` from the row that the store found, if any.
pub fn fetch(found: Result<Option<Note>, StoreError>) -> (r: Result<Note, ApiError>)
    ensures
        fetch_answer(found, r),
{
    match found {
        Ok(Some(note)) => Ok(note),
        Ok(None) => Err(ApiError::NotFound("note")),
        Err(e) => Err(ApiError::from(e)),
    }
}

/// How `PUT /api/notes/{id}` answers from the row that the store updated: the row as
/// it is stored now, not found, or the same errors as a create.
pub open spec fn updated_answer(updated: Result<Option<Note>, StoreError>, r: Result<Note, ApiError>) -> bool {
    match updated {
        Ok(Some(note)) => r == Ok::<Note, ApiError>(note),
        Ok(None) => r matches Err(ApiError::NotFound(resource)) && resource@ == "note"@,
        Err(StoreError::ForeignKeyViolation(_)) => r matches Err(ApiError::Validation(m)) && m@
            == "project does not exist"@,
        Err(StoreError::Other(m)) => r == Err::<Note, ApiError>(ApiError::Database(m)),
    }
}

/// The last step of `PUT /api/notes/{id}`: answers from the row that the store
/// updated, if any.
pub fn updated(reply: Result<Option<Note>, StoreError>) -> (r: Result<Note, ApiError>)
    ensures
        updated_answer(reply, r),
{
    match reply {
        Ok(Some(note)) => Ok(note),
        Ok(None) => Err(ApiError::NotFound("note")),
        Err(e) => Err(write_failed(e)),
    }
}

/// How `DELETE /api/notes/{id}` answers from the number of rows that the store
/// deleted: `204 No Content`, or not found when none was.
pub open spec fn remove_answer(deleted: Result<u64, StoreError>, r: Result<u16, ApiError>) -> bool {
    match deleted {
        Ok(n) => if n == 0 {
            r matches Err(ApiError::NotFound(resource)) && resource@ == "note"@
        } else {
            r == Ok::<u16, ApiError>(NO_CONTENT)
        },
        Err(e) => r == Err::<u16, ApiError>(ApiError::Database(e.message())),
    }
}

/// Answers `DELETE /api/notes/{id}` from the number of rows that the store deleted.
pub fn remove(deleted: Result<u64, StoreError>) -> (r: Result<u16, ApiError>)
    ensures
        remove_answer(deleted, r),
{
    match deleted {
        Ok(0) => Err(ApiError::NotFound("note")),
        Ok(_) => Ok(NO_CONTENT),
        Err(e) => Err(ApiError::from(e)),
    }
}

/// What the store replies to inserting `values` into the notes `table`, by id: `row`
/// is a new row under an id not yet taken, holding the values, created and updated at
/// the same instant. The table then holds it under its id.
pub open spec fn inserts(table: Map<i64, Note>, values: NoteInput, row: Note) -> bool {
    &&& !table.contains_key(row.id)
    &&& row.title == values.title
    &&& row.body == values.body
    &&& row.project_id == values.project_id
    &&& row.created_at == row.updated_at
}

/// What the store replies to selecting the note `id` from `table`.
pub open spec fn select(table: Map<i64, Note>, id: i64) -> Option<Note> {
    if table.contains_key(id) {
        Some(table[id])
    } else {
        None
    }
}

/// What the store replies to updating the note `id` of `table` with `values`: none
/// when there is no such note; else the note with the values, under the same id and
/// with the same creation time. The table then holds the reply under `id`.
pub open spec fn updates(table: Map<i64, Note>, id: i64, values: NoteInput, reply: Option<Note>) -> bool {
    match reply {
        None => !table.contains_key(id),
        Some(row) => {
            &&& table.contains_key(id)
            &&& row.id == id
            &&& row.title == values.title
            &&& row.body == values.body
            &&& row.project_id == values.project_id
            &&& row.created_at == table[id].created_at
        },
    }
}

/// What the store replies to deleting the note `id` of `table`: the number of rows
/// deleted. The table then no longer holds `id`.
pub open spec fn deletes(table: Map<i64, Note>, id: i64) -> u64 {
    if table.contains_key(id) {
        1
    } else {
        0
    }
}

/// A note reads back as it was created: when `create` accepted `input` and the store
/// inserted `row` for the values it gave, the create answers `201` with `row`, a later
/// fetch of its id answers `row`, and `row` holds the trimmed title, the body and the
/// project of `input`.
pub proof fn fetch_after_create(
    table: Map<i64, Note>,
    input: NoteInput,
    step: Result<NoteInput, ApiError>,
    row: Note,
    created: Result<(u16, Note), ApiError>,
    fetched: Result<Note, ApiError>,
)
    requires
        validated(input, step),
        match step {
            Ok(values) => inserts(table, values, row),
            Err(_) => false,
        },
        created_answer(Ok(row), created),
        fetch_answer(Ok(select(table.insert(row.id, row), row.id)), fetched),
    ensures
        trim(input.title@).len() > 0,
        created == Ok::<(u16, Note), ApiError>((CREATED, row)),
        fetched == Ok::<Note, ApiError>(row),
        row.title@ == trim(input.title@),
        row.body == input.body,
        row.project_id == input.project_id,
        row.created_at == row.updated_at,
{
}

/// A note reads back as it was updated: when `update` accepted `input` for the note
/// `id` and the store updated that note with the values it gave, the update answers
/// the new row, a later fetch answers the same row, which holds the trimmed title, the
/// body and the project of `input`, and the note's creation time is kept.
pub proof fn fetch_after_update(
    table: Map<i64, Note>,
    id: i64,
    input: NoteInput,
    step: Result<(i64, NoteInput), ApiError>,
    row: Note,
    answered: Result<Note, ApiError>,
    fetched: Result<Note, ApiError>,
)
    requires
        update_step(id, input, step),
        match step {
            Ok(w) => updates(table, w.0, w.1, Some(row)),
            Err(_) => false,
        },
        updated_answer(Ok(Some(row)), answered),
        fetch_answer(Ok(select(table.insert(id, row), id)), fetched),
    ensures
        trim(input.title@).len() > 0,
        answered == Ok::<Note, ApiError>(row),
        fetched == Ok::<Note, ApiError>(row),
        row.id == id,
        row.title@ == trim(input.title@),
        row.body == input.body,
        row.project_id == input.project_id,
        row.created_at == table[id].created_at,
{
}

/// Deleting undoes creating: after the store deleted the note `id`, the delete
/// answered `204` exactly when the note existed, and a later fetch of `id` answers not
/// found.
pub proof fn fetch_after_remove(
    table: Map<i64, Note>,
    id: i64,
    removed: Result<u16, ApiError>,
    fetched: Result<Note, ApiError>,
)
    requires
        remove_answer(Ok(deletes(table, id)), removed),
        fetch_answer(Ok(select(table.remove(id), id)), fetched),
    ensures
        table.contains_key(id) <==> removed == Ok::<u16, ApiError>(NO_CONTENT),
        !table.contains_key(id) ==> (removed matches Err(ApiError::NotFound(resource))
            && resource@ == "note"@),
        fetched matches Err(ApiError::NotFound(resource)) && resource@ == "note"@,
{
}

/// A note is ranked by when it was last updated, then by its id.
pub proof fn note_rank_is_update_time_then_id(note: Note)
    ensures
        note.spec_rank() == (note.updated_at.secs, note.updated_at.nanos, note.id),
{
}

/// A list of notes in the order that answers `GET /api/notes` has each note updated
/// later than every note after it, or at the same instant with an id at least as high.
pub proof fn newest_first_notes_by_update_time(notes: Seq<Note>)
    requires
        newest_first(notes),
    ensures
        forall|i: int, j: int|
            #![trigger notes[i], notes[j]]
            0 <= i < j < notes.len() ==> ({
                let (a, b) = (notes[i], notes[j]);
                ||| a.updated_at.secs > b.updated_at.secs
                ||| a.updated_at.secs == b.updated_at.secs && a.updated_at.nanos
                    > b.updated_at.nanos
                ||| a.updated_at.secs == b.updated_at.secs && a.updated_at.nanos
                    == b.updated_at.nanos && a.id >= b.id
            }),
{
    assert forall|i: int, j: int|
        #![trigger notes[i], notes[j]]
        0 <= i < j < notes.len() implies {
        let (a, b) = (notes[i], notes[j]);
        ||| a.updated_at.secs > b.updated_at.secs
        ||| a.updated_at.secs == b.updated_at.secs && a.updated_at.nanos > b.updated_at.nanos
        ||| a.updated_at.secs == b.updated_at.secs && a.updated_at.nanos == b.updated_at.nanos
            && a.id >= b.id
    } by {
        assert(crate::listing::listed_before(notes[i].spec_rank(), notes[j].spec_rank()));
    }
}

/// Reading a note's input accepts every title that is not blank, keeping the trimmed
/// title, the body and the project, and refuses exactly the blank ones.
pub proof fn validation_accepts_every_title_that_is_not_blank(
    input: NoteInput,
    r: Result<NoteInput, ApiError>,
)
    requires
        validated(input, r),
    ensures
        trim(input.title@).len() > 0 ==> (r matches Ok(v) && v.title@ == trim(input.title@)
            && v.body == input.body && v.project_id == input.project_id),
        trim(input.title@).len() == 0 ==> (r matches Err(ApiError::Validation(m)) && m@
            == "title must not be empty"@),
{
}

/// The first step of an update accepts every title that is not blank, whatever the
/// body, keeping the id, the trimmed title, the body and the project, and refuses
/// exactly the blank titles.
pub proof fn update_accepts_every_title_that_is_not_blank(
    id: i64,
    input: NoteInput,
    r: Result<(i64, NoteInput), ApiError>,
)
    requires
        update_step(id, input, r),
    ensures
        trim(input.title@).len() > 0 ==> (r matches Ok(w) && w.0 == id && w.1.title@ == trim(
            input.title@,
        ) && w.1.body == input.body && w.1.project_id == input.project_id),
        trim(input.title@).len() == 0 ==> (r matches Err(ApiError::Validation(m)) && m@
            == "title must not be empty"@),
{
}

/// What each handler answers from the store's reply: a stored row is handed on as it
/// is (with `201` for a create, `204` for a delete of at least one row), a missing row
/// is `404 note not found`, a reference to a missing project is `422`, and any other
/// failure is a store failure carrying its description.
pub proof fn answers_follow_the_store(
    inserted: Result<Note, StoreError>,
    created: Result<(u16, Note), ApiError>,
    found: Result<Option<Note>, StoreError>,
    fetched: Result<Note, ApiError>,
    reply: Result<Option<Note>, StoreError>,
    answered: Result<Note, ApiError>,
    deleted: Result<u64, StoreError>,
    removed: Result<u16, ApiError>,
)
    requires
        created_answer(inserted, created),
        fetch_answer(found, fetched),
        updated_answer(reply, answered),
        remove_answer(deleted, removed),
    ensures
        inserted matches Ok(n) ==> created == Ok::<(u16, Note), ApiError>((201, n)),
        inserted matches Err(StoreError::ForeignKeyViolation(_)) ==> (created matches Err(
            ApiError::Validation(m),
        ) && m@ == "project does not exist"@),
        inserted matches Err(StoreError::Other(m)) ==> created == Err::<(u16, Note), ApiError>(
            ApiError::Database(m),
        ),
        found matches Ok(Some(n)) ==> fetched == Ok::<Note, ApiError>(n),
        found == Ok::<Option<Note>, StoreError>(None) ==> (fetched matches Err(
            ApiError::NotFound(res),
        ) && res@ == "note"@),
        found matches Err(e) ==> fetched == Err::<Note, ApiError>(ApiError::Database(e.message())),
        reply matches Ok(Some(n)) ==> answered == Ok::<Note, ApiError>(n),
        reply == Ok::<Option<Note>, StoreError>(None) ==> (answered matches Err(
            ApiError::NotFound(res),
        ) && res@ == "note"@),
        reply matches Err(StoreError::ForeignKeyViolation(_)) ==> (answered matches Err(
            ApiError::Validation(m),
        ) && m@ == "project does not exist"@),
        reply matches Err(StoreError::Other(m)) ==> answered == Err::<Note, ApiError>(
            ApiError::Database(m),
        ),
        deleted matches Ok(k) ==> (k > 0 ==> removed == Ok::<u16, ApiError>(204)),
        deleted == Ok::<u64, StoreError>(0) ==> (removed matches Err(ApiError::NotFound(res))
            && res@ == "note"@),
        deleted matches Err(e) ==> removed == Err::<u16, ApiError>(
            ApiError::Database(e.message()),
        ),
{
}

/// A filter selects a note exactly when it names no project or names the note's
/// project.
pub proof fn filter_selects_the_named_project(filter: NoteFilter, note: Note)
    ensures
        selects(filter, note) <==> (filter.project_id is None || note.project_id
            == filter.project_id),
{
}

} // verus!
