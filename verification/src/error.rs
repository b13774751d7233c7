use vstd::prelude::*;
use vstd::string::*;

verus! {

/// The failures an operation can end in. `Unauthorized` and `NotFound` carry
/// nothing beyond their category, so a caller cannot tell an entity that does
/// not exist from one that belongs to another tenant.
#[derive(Debug)]
pub enum WebError {
    /// The credential is missing, malformed, unknown or expired.
    Unauthorized,
    /// The entity is absent, or is owned by another tenant.
    NotFound,
    /// The payload was rejected before it reached the core; the text is the
    /// validator's own report, passed on unchanged.
    ValidationFailed(String),
    /// Storage failed for any other reason.
    StorageFailure,
}

impl WebError {
    /// The name of the category as it is shown to a client.
    pub open spec fn identifier_text(self) -> Seq<char> {
        match self {
            WebError::Unauthorized => "Unauthorized"@,
            WebError::NotFound => "NotFound"@,
            WebError::ValidationFailed(_) => "ValidationError"@,
            WebError::StorageFailure => "DatabaseError"@,
        }
    }

    /// The detail shown with the category. Only a validation report carries
    /// text of its own; a storage failure never exposes what storage said.
    pub open spec fn detail_text(self) -> Seq<char> {
        match self {
            WebError::Unauthorized => "credential missing, invalid or expired"@,
            WebError::NotFound => "no such entity"@,
            WebError::ValidationFailed(report) => report@,
            WebError::StorageFailure => "storage failure"@,
        }
    }

    /// The HTTP status that goes with the category.
    pub open spec fn status(self) -> u16 {
        match self {
            WebError::Unauthorized => 401,
            WebError::NotFound => 404,
            WebError::ValidationFailed(_) => 422,
            WebError::StorageFailure => 500,
        }
    }

    pub fn identifier(&self) -> (text: String)
        ensures
            text@ == self.identifier_text(),
    {
        match self {
            WebError::Unauthorized => String::from_str("Unauthorized"),
            WebError::NotFound => String::from_str("NotFound"),
            WebError::ValidationFailed(_) => String::from_str("ValidationError"),
            WebError::StorageFailure => String::from_str("DatabaseError"),
        }
    }

    pub fn detail(&self) -> (text: String)
        ensures
            text@ == self.detail_text(),
    {
        match self {
            WebError::Unauthorized => String::from_str("credential missing, invalid or expired"),
            WebError::NotFound => String::from_str("no such entity"),
            WebError::ValidationFailed(report) => report.clone(),
            WebError::StorageFailure => String::from_str("storage failure"),
        }
    }

    pub fn status_code(&self) -> (code: u16)
        ensures
            code == self.status(),
    {
        match self {
            WebError::Unauthorized => 401,
            WebError::NotFound => 404,
            WebError::ValidationFailed(_) => 422,
            WebError::StorageFailure => 500,
        }
    }
}

} // verus!
