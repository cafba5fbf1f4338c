//! Errors of the API and the JSON body that every error response carries.

use vstd::prelude::*;

verus! {

/// `201 Created`.
pub const CREATED: u16 = 201;

/// `204 No Content`.
pub const NO_CONTENT: u16 = 204;

/// `404 Not Found`.
pub const NOT_FOUND: u16 = 404;

/// `422 Unprocessable Entity`.
pub const UNPROCESSABLE_ENTITY: u16 = 422;

/// `500 Internal Server Error`.
pub const INTERNAL_SERVER_ERROR: u16 = 500;

/// The value read from a request's JSON body. A body that cannot be read is answered
/// with [`ApiError::Rejected`], which carries the status and message of the rejection.
pub struct ApiJson<T>(pub T);

/// The value read from a request's query string, such as `?project_id=1`. A query that
/// cannot be read is answered with [`ApiError::Rejected`].
pub struct ApiQuery<T>(pub T);

/// The value read from a request's path, such as the id in `/api/notes/1`. A path that
/// cannot be read is answered with [`ApiError::Rejected`].
pub struct ApiPath<T>(pub T);

/// How a statement against the store failed.
#[derive(Debug)]
pub enum StoreError {
    /// A row referred to a row of another table that does not exist.
    ForeignKeyViolation(String),
    /// Any other failure; carries its description.
    Other(String),
}

#[derive(Debug)]
pub enum ApiError {
    /// No such resource; carries its name, e.g. `"note"`.
    NotFound(&'static str),
    Validation(&'static str),
    /// An extractor rejected the request; carries axum's status and message.
    Rejected(u16, String),
    /// The store failed; carries the description that is logged, never sent.
    Database(String),
}

/// The JSON body of every error response.
pub struct ErrorBody {
    pub error: String,
}

/// An error response: its status and its body.
pub struct ErrorResponse {
    pub status: u16,
    pub body: ErrorBody,
}

impl StoreError {
    /// The description of the failure.
    pub open spec fn message(self) -> String {
        match self {
            StoreError::ForeignKeyViolation(m) => m,
            StoreError::Other(m) => m,
        }
    }
}

impl ApiError {
    /// The status with which the error is answered.
    pub open spec fn status(self) -> u16 {
        match self {
            ApiError::NotFound(_) => NOT_FOUND,
            ApiError::Validation(_) => UNPROCESSABLE_ENTITY,
            ApiError::Rejected(status, _) => status,
            ApiError::Database(_) => INTERNAL_SERVER_ERROR,
        }
    }

    /// The message that the error's body carries.
    pub open spec fn message(self) -> Seq<char> {
        match self {
            ApiError::NotFound(resource) => resource@ + " not found"@,
            ApiError::Validation(message) => message@,
            ApiError::Rejected(_, message) => message@,
            ApiError::Database(_) => "internal server error"@,
        }
    }

    /// The response that answers this error. A store failure is answered without its
    /// description.
    pub fn into_response(self) -> (r: ErrorResponse)
        ensures
            r.status == self.status(),
            r.body.error@ == self.message(),
    {
        match self {
            ApiError::NotFound(resource) => ErrorResponse {
                status: NOT_FOUND,
                body: ErrorBody { error: resource.to_owned().concat(" not found") },
            },
            ApiError::Validation(message) => ErrorResponse {
                status: UNPROCESSABLE_ENTITY,
                body: ErrorBody { error: message.to_owned() },
            },
            ApiError::Rejected(status, message) => ErrorResponse {
                status,
                body: ErrorBody { error: message },
            },
            ApiError::Database(_) => ErrorResponse {
                status: INTERNAL_SERVER_ERROR,
                body: ErrorBody { error: "internal server error".to_owned() },
            },
        }
    }
}

/// How each error is answered: a missing resource is `404` with "⟨resource⟩ not
/// found", a refused input `422` with its message, a rejected request with the
/// rejection's own status and message, and a store failure `500` with "internal server
/// error".
pub proof fn errors_are_answered_by_kind(
    resource: &'static str,
    refusal: &'static str,
    status: u16,
    rejection: String,
    failure: String,
)
    ensures
        ApiError::NotFound(resource).status() == 404,
        ApiError::NotFound(resource).message() == resource@ + " not found"@,
        ApiError::Validation(refusal).status() == 422,
        ApiError::Validation(refusal).message() == refusal@,
        ApiError::Rejected(status, rejection).status() == status,
        ApiError::Rejected(status, rejection).message() == rejection@,
        ApiError::Database(failure).status() == 500,
        ApiError::Database(failure).message() == "internal server error"@,
{
}

/// A store failure is answered the same whatever went wrong: its description never
/// reaches the client.
pub proof fn store_failures_look_alike(a: String, b: String)
    ensures
        ApiError::Database(a).status() == ApiError::Database(b).status() == INTERNAL_SERVER_ERROR,
        ApiError::Database(a).message() == ApiError::Database(b).message(),
{
}

impl From<StoreError> for ApiError {
    fn from(err: StoreError) -> (r: Self) {
        match err {
            StoreError::ForeignKeyViolation(message) => ApiError::Database(message),
            StoreError::Other(message) => ApiError::Database(message),
        }
    }
}

impl vstd::std_specs::convert::FromSpecImpl<StoreError> for ApiError {
    open spec fn obeys_from_spec() -> bool {
        true
    }

    open spec fn from_spec(err: StoreError) -> ApiError {
        ApiError::Database(err.message())
    }
}

} // verus!
