//! The error taxonomy shared by the repositories and the services.
use vstd::prelude::*;

verus! {

/// Why an operation failed.
#[derive(Debug, Clone, PartialEq, Eq)]
pub enum AppError {
    /// The identifier has no stored row.
    NotFound,
    /// An entity broke a structural rule; the message says which.
    Validation(String),
    /// The storage engine failed; the message is its own.
    Database(String),
    /// Anything else that went wrong.
    Internal(String),
}

pub type AppResult<T> = Result<T, AppError>;

impl AppError {
    /// The human-readable text of the error.
    pub fn message(&self) -> (r: String)
        ensures
            self is NotFound ==> r@ == "Resource not found"@,
            self is Validation ==> r@ == "Validation error: "@ + self->Validation_0@,
            self is Database ==> r@ == "Database error: "@ + self->Database_0@,
            self is Internal ==> r@ == "Internal server error: "@ + self->Internal_0@,
    {
        match self {
            AppError::NotFound => String::from_str("Resource not found"),
            AppError::Validation(m) => String::from_str("Validation error: ").concat(m.as_str()),
            AppError::Database(m) => String::from_str("Database error: ").concat(m.as_str()),
            AppError::Internal(m) => String::from_str("Internal server error: ").concat(m.as_str()),
        }
    }
}

/// Turns the zero-or-one row of a lookup by identifier into a result: no row
/// is `NotFound`.
pub fn require_found<T>(row: Option<T>) -> (r: AppResult<T>)
    ensures
        row is Some ==> r == Ok::<T, AppError>(row->0),
        row is None ==> r == Err::<T, AppError>(AppError::NotFound),
{
    match row {
        Some(t) => Ok(t),
        None => Err(AppError::NotFound),
    }
}

/// Turns the affected-row count of an UPDATE or DELETE by identifier into a
/// result: zero rows means that the identifier matched nothing.
pub fn require_affected(rows: u64) -> (r: AppResult<()>)
    ensures
        rows > 0 ==> r == Ok::<(), AppError>(()),
        rows == 0 ==> r == Err::<(), AppError>(AppError::NotFound),
{
    if rows == 0 {
        Err(AppError::NotFound)
    } else {
        Ok(())
    }
}

} // verus!
