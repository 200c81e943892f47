use vstd::prelude::*;

verus! {

/// Why a bearer token did not yield an identity.
#[derive(Clone, Copy, Debug, PartialEq, Eq, Structural)]
pub enum AuthError {
    MissingHeader,
    Malformed,
    InvalidSignature,
    Expired,
}

/// Why a submitted recipe or upload was refused before anything was written.
#[derive(Clone, Copy, Debug, PartialEq, Eq, Structural)]
pub enum ValidationError {
    InvalidCharacters,
    DuplicateStepOrder,
    EmptySteps,
    UnsupportedMedia,
}

/// Why an authenticated caller may not touch a recipe.
#[derive(Clone, Copy, Debug, PartialEq, Eq, Structural)]
pub enum AuthorizationError {
    NotOwner,
}

/// Which store failed, and how.
#[derive(Clone, Copy, Debug, PartialEq, Eq, Structural)]
pub enum StorageError {
    DbFailure,
    FileIoFailure,
    NotFound,
    Corrupt,
}

/// Every way in which a request can fail.
#[derive(Clone, Copy, Debug, PartialEq, Eq, Structural)]
pub enum ErrorKind {
    Auth(AuthError),
    Validation(ValidationError),
    Authorization(AuthorizationError),
    Storage(StorageError),
}

/// The HTTP status under which an error of kind `kind` is reported.
pub open spec fn status_of(kind: ErrorKind) -> u16 {
    match kind {
        ErrorKind::Auth(_) => 401,
        ErrorKind::Validation(_) => 400,
        ErrorKind::Authorization(_) => 401,
        ErrorKind::Storage(StorageError::NotFound) => 404,
        ErrorKind::Storage(_) => 500,
    }
}

/// The HTTP status under which an error of kind `kind` is reported.
pub fn status_code(kind: ErrorKind) -> (status: u16)
    ensures
        status == status_of(kind),
{
    match kind {
        ErrorKind::Auth(_) => 401,
        ErrorKind::Validation(_) => 400,
        ErrorKind::Authorization(_) => 401,
        ErrorKind::Storage(StorageError::NotFound) => 404,
        ErrorKind::Storage(_) => 500,
    }
}

/// The body of an error response: a short title and a description of the cause.
#[derive(Debug)]
pub struct PrettyErrorResponse {
    pub error: String,
    pub description: String,
}

impl PrettyErrorResponse {
    /// A body with the title `title` and the description `description`.
    pub fn new(title: String, description: String) -> (r: Self)
        ensures
            r.error == title,
            r.description == description,
    {
        PrettyErrorResponse { error: title, description }
    }
}

/// A failed request: what kind of failure it is, and the two texts shown to the caller.
#[derive(Debug)]
pub struct ServiceError {
    pub kind: ErrorKind,
    pub error: String,
    pub description: String,
}

/// A `ServiceError` as plain values, as contracts speak of it.
pub struct ServiceErrorView {
    pub kind: ErrorKind,
    pub error: Seq<char>,
    pub description: Seq<char>,
}

impl View for ServiceError {
    type V = ServiceErrorView;

    open spec fn view(&self) -> ServiceErrorView {
        ServiceErrorView { kind: self.kind, error: self.error@, description: self.description@ }
    }
}

impl ServiceError {
    /// Whether this error is of kind `kind` and carries the texts `title` and
    /// `description`.
    pub open spec fn is(self, kind: ErrorKind, title: Seq<char>, description: Seq<char>) -> bool {
        &&& self.kind == kind
        &&& self.error@ == title
        &&& self.description@ == description
    }

    /// An error of kind `kind` with the texts `title` and `description`.
    pub fn new(kind: ErrorKind, title: &str, description: &str) -> (e: Self)
        ensures
            e.is(kind, title@, description@),
    {
        ServiceError { kind, error: title.to_owned(), description: description.to_owned() }
    }

    /// The status and body under which this error is reported.
    pub fn render(self) -> (r: (u16, PrettyErrorResponse))
        ensures
            r.0 == status_of(self.kind),
            r.1.error == self.error,
            r.1.description == self.description,
    {
        let status = status_code(self.kind);
        (status, PrettyErrorResponse::new(self.error, self.description))
    }
}

} // verus!
