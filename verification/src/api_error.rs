//! Errors of the API layer: the two externally visible failure kinds, and
//! the exact mapping of every domain error onto them. A duplicate name and
//! invalid input are semantically rejected; everything unknown becomes an
//! opaque internal failure that leaks no detail.

use vstd::prelude::*;
use crate::api_success::{
    ApiResponseBody, STATUS_INTERNAL_SERVER_ERROR, STATUS_UNPROCESSABLE_ENTITY,
};
use crate::expense::{
    duplicate_message, invalid_page_message, page_not_found_message, CreateExpenseError,
    ExpenseNameEmptyError, PaginationError,
};
use crate::ports::{list_failure_context, repo_error_text, ListExpensesError};

verus! {

/// Represents errors that can occur in the API layer.
///
/// Maps domain and infrastructure errors to HTTP responses.
#[derive(Debug, Clone, PartialEq, Eq)]
pub enum ApiError {
    /// Internal server error (HTTP 500).
    InternalServerError(String),
    /// Unprocessable entity error (HTTP 422).
    UnprocessableEntity(String),
}

/// The opaque text an internal failure answers with.
pub open spec fn internal_error_text() -> Seq<char> {
    "Internal server error"@
}

impl ApiError {
    /// A duplicate name is semantically rejected with its diagnostic; any
    /// unknown creation failure becomes an opaque internal failure.
    pub fn from_create_expense_error(e: CreateExpenseError) -> (r: ApiError)
        ensures
            match e {
                CreateExpenseError::Duplicate { name } => (r matches ApiError::UnprocessableEntity(
                    m,
                ) && m@ == duplicate_message(name@)),
                CreateExpenseError::Unknown { .. } => (r matches ApiError::InternalServerError(m)
                    && m@ == internal_error_text()),
            },
    {
        match &e {
            CreateExpenseError::Duplicate { .. } => ApiError::UnprocessableEntity(e.message()),
            CreateExpenseError::Unknown { .. } => ApiError::InternalServerError(
                "Internal server error".to_owned(),
            ),
        }
    }

    /// An empty name is semantically rejected with its diagnostic.
    pub fn from_empty_name_error(e: ExpenseNameEmptyError) -> (r: ApiError)
        ensures
            (r matches ApiError::UnprocessableEntity(m) && m@ == "expense name cannot be empty"@),
    {
        ApiError::UnprocessableEntity(e.message())
    }

    /// Invalid or unresolvable pagination input is semantically rejected
    /// with its diagnostic; anything unknown becomes an opaque internal
    /// failure.
    pub fn from_pagination_error(e: PaginationError) -> (r: ApiError)
        ensures
            match e {
                PaginationError::InvalidPage { page, size } => (r matches
                    ApiError::UnprocessableEntity(m) && m@ == invalid_page_message(page, size)),
                PaginationError::PageNotFound { page } => (r matches ApiError::UnprocessableEntity(
                    m,
                ) && m@ == page_not_found_message(page)),
                PaginationError::Unknown { .. } => (r matches ApiError::InternalServerError(m)
                    && m@ == internal_error_text()),
            },
    {
        match &e {
            PaginationError::InvalidPage { .. } => ApiError::UnprocessableEntity(e.message()),
            PaginationError::PageNotFound { .. } => ApiError::UnprocessableEntity(e.message()),
            PaginationError::Unknown { .. } => ApiError::InternalServerError(
                "Internal server error".to_owned(),
            ),
        }
    }

    /// A failed listing is an internal failure carrying the wrapped
    /// repository error's diagnostic.
    pub fn from_list_expenses_error(e: ListExpensesError) -> (r: ApiError)
        ensures
            (r matches ApiError::InternalServerError(m) && m@ == list_failure_context()
                + repo_error_text(e.cause)),
    {
        ApiError::InternalServerError(e.message())
    }

    /// The status code and response body this error answers with: a
    /// semantic rejection keeps its diagnostic, while an internal failure
    /// answers opaquely, whatever its recorded cause — nothing leaks.
    pub fn into_response_parts(self) -> (r: (u16, ApiResponseBody<String>))
        ensures
            match self {
                ApiError::InternalServerError(_) => r.0 == STATUS_INTERNAL_SERVER_ERROR
                    && r.1.status_code == STATUS_INTERNAL_SERVER_ERROR && r.1.data@
                    == internal_error_text(),
                ApiError::UnprocessableEntity(m) => r.0 == STATUS_UNPROCESSABLE_ENTITY
                    && r.1.status_code == STATUS_UNPROCESSABLE_ENTITY && r.1.data == m,
            },
    {
        match self {
            ApiError::InternalServerError(_) => {
                let body = ApiResponseBody::new(
                    STATUS_INTERNAL_SERVER_ERROR,
                    "Internal server error".to_owned(),
                );
                (STATUS_INTERNAL_SERVER_ERROR, body)
            },
            ApiError::UnprocessableEntity(message) => {
                let body = ApiResponseBody::new(STATUS_UNPROCESSABLE_ENTITY, message);
                (STATUS_UNPROCESSABLE_ENTITY, body)
            },
        }
    }
}

} // verus!
