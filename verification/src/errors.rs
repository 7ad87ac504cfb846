//! The failures a request handler can end with, and how each is answered.

use vstd::prelude::*;
use vstd::std_specs::convert::FromSpecImpl;

verus! {

/// A lower-level failure met while the session and the stores were consulted
/// to find out who a request is from.
#[derive(Clone, Copy, Debug, PartialEq, Eq, Structural)]
pub enum AuthFromSessionError {
    /// The session itself could not be read.
    SessionRetrieveError,
    /// The user or permission lookup failed.
    DbQueryError,
}

/// The one error type that handlers return. It names what went wrong and
/// carries no detail: neither a provider token nor the text of an internal
/// error can reach a page or a log through it.
#[derive(Clone, Copy, Debug, PartialEq, Eq, Structural)]
pub enum HandlerError {
    /// The resource was not found.
    NotFound,
    /// No connection could be taken from the pool: a persistence failure.
    PoolError,
    /// A query against the database failed: a persistence failure.
    DatabaseError,
    /// Data could not be extracted from the session.
    SessionError,
    /// An attachment could not be stored or retrieved.
    AttachmentStorageError,
    /// The HTTP exchange with the identity provider failed or its body made
    /// no sense: a provider failure.
    HttpError,
    /// A date in a form could not be parsed.
    ParseError,
    /// The database driver reported an error: a persistence failure.
    DieselError,
    /// An approval state in a form could not be parsed.
    ApprovalStateParseError,
    /// No valid session accompanies the request.
    NotAuthenticated,
    /// The session is valid, but its user lacks the permission asked for.
    Forbidden,
}

impl HandlerError {
    /// Whether the identity provider is to blame.
    pub open spec fn is_provider_error(&self) -> bool {
        *self == HandlerError::HttpError
    }

    /// Whether the data store is to blame.
    pub open spec fn is_persistence_error(&self) -> bool {
        *self == HandlerError::PoolError || *self == HandlerError::DatabaseError || *self
            == HandlerError::DieselError
    }

    /// What may be said of this error to whoever caused it.
    pub open spec fn spec_message(&self) -> Seq<char> {
        match *self {
            HandlerError::NotFound => "The resource was not found"@,
            HandlerError::PoolError => "Could not get a connection from the pool"@,
            HandlerError::DatabaseError => "Failed to query the database"@,
            HandlerError::SessionError => "Failed to extract data from session"@,
            HandlerError::AttachmentStorageError => "Failed to store/retrieve attachment"@,
            HandlerError::HttpError => "HTTP Error"@,
            HandlerError::ParseError => "Parse Error"@,
            HandlerError::DieselError => "Diesel Error"@,
            HandlerError::ApprovalStateParseError => "Approval State Parse Error"@,
            HandlerError::NotAuthenticated => "No user is logged in"@,
            HandlerError::Forbidden => "The user may not do this"@,
        }
    }

    /// What may be said of this error to whoever caused it: which kind of
    /// error it is, and nothing of what lies behind it.
    pub fn message(&self) -> (text: &'static str)
        ensures
            text@ == self.spec_message(),
    {
        match self {
            HandlerError::NotFound => "The resource was not found",
            HandlerError::PoolError => "Could not get a connection from the pool",
            HandlerError::DatabaseError => "Failed to query the database",
            HandlerError::SessionError => "Failed to extract data from session",
            HandlerError::AttachmentStorageError => "Failed to store/retrieve attachment",
            HandlerError::HttpError => "HTTP Error",
            HandlerError::ParseError => "Parse Error",
            HandlerError::DieselError => "Diesel Error",
            HandlerError::ApprovalStateParseError => "Approval State Parse Error",
            HandlerError::NotAuthenticated => "No user is logged in",
            HandlerError::Forbidden => "The user may not do this",
        }
    }

    /// The HTTP status that answers this error.
    pub open spec fn spec_status_code(&self) -> u16 {
        match *self {
            HandlerError::NotFound => 404,
            HandlerError::SessionError => 400,
            HandlerError::NotAuthenticated => 401,
            HandlerError::Forbidden => 403,
            _ => 500,
        }
    }

    /// The HTTP status that answers this error: 404 for a missing resource,
    /// 400 for an unreadable session, 401 where nobody is signed in, 403 where
    /// the user lacks the permission, and 500 for everything that went wrong
    /// on the server's side, provider and persistence failures among it.
    #[verifier::when_used_as_spec(spec_status_code)]
    pub fn status_code(&self) -> (code: u16)
        ensures
            code == self.spec_status_code(),
            self.is_provider_error() || self.is_persistence_error() ==> code == 500,
    {
        match self {
            HandlerError::AttachmentStorageError => 500,
            HandlerError::DatabaseError => 500,
            HandlerError::PoolError => 500,
            HandlerError::HttpError => 500,
            HandlerError::ParseError => 500,
            HandlerError::ApprovalStateParseError => 500,
            HandlerError::DieselError => 500,
            HandlerError::NotFound => 404,
            HandlerError::SessionError => 400,
            HandlerError::NotAuthenticated => 401,
            HandlerError::Forbidden => 403,
        }
    }
}

impl From<AuthFromSessionError> for HandlerError {
    /// A failed lookup becomes a database error, an unreadable session a
    /// session error.
    fn from(error: AuthFromSessionError) -> (converted: Self) {
        match error {
            AuthFromSessionError::DbQueryError => HandlerError::DatabaseError,
            AuthFromSessionError::SessionRetrieveError => HandlerError::SessionError,
        }
    }
}

impl FromSpecImpl<AuthFromSessionError> for HandlerError {
    open spec fn obeys_from_spec() -> bool {
        true
    }

    open spec fn from_spec(error: AuthFromSessionError) -> Self {
        match error {
            AuthFromSessionError::DbQueryError => HandlerError::DatabaseError,
            AuthFromSessionError::SessionRetrieveError => HandlerError::SessionError,
        }
    }
}

} // verus!
