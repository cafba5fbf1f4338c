# bagel

The verified core of the bagel notes and projects API, written in Verus.

- `src/` is the library that Verus checks. Each write handler is two steps: the first
  reads the input (titles and names are trimmed and must not be empty; a refused input
  is answered before any statement runs), the second answers from what the SQLite store
  replied (status codes, `not found`, a reference to a missing project, store failures
  answered without their details). Lists are ordered most recently updated first, then
  by highest id. A model of the tables states what reads back after a create, an update
  or a delete, and that deleting a project keeps its notes, unassigned.
- `app/` is the axum server around it: extractors, the migrations, SQL through sqlx,
  JSON and the OpenAPI document. Besides running the library's steps in order, it tells
  a foreign-key failure of the store from any other.
- `tests/` runs the library on concrete requests and store replies.
