//! The compute side of the two HTTP endpoints: validated conversion of
//! transport input into domain requests, invocation of the finance
//! service, and the exact mapping of every outcome onto a status code,
//! response data and error kind. Parsing and sending bytes is the HTTP
//! adapter's business.

use vstd::prelude::*;
use crate::api_error::{internal_error_text, ApiError};
use crate::api_success::{ApiSuccess, STATUS_CREATED, STATUS_OK};
use crate::expense::{
    duplicate_message, invalid_page_message, CreateExpenseRequest, Expense, ExpenseNameEmptyError,
    ListExpensesRequest, PaginationError,
};
use crate::ids::{uuid_display, uuid_string};
use crate::ports::{contains_name, list_failure_context, FinanceService};
use crate::text::trim_spec;

verus! {

/// The HTTP request body for creating an expense.
#[derive(Debug, Clone, PartialEq, Eq)]
pub struct CreateExpenseHttpRequestBody {
    pub name: String,
}

impl CreateExpenseHttpRequestBody {
    /// Converts the HTTP request body into a domain request, validating
    /// the name.
    pub fn try_into_domain(self) -> (r: Result<CreateExpenseRequest, ExpenseNameEmptyError>)
        ensures
            match r {
                Ok(q) => trim_spec(self.name@).len() > 0 && q@ == trim_spec(self.name@),
                Err(_) => trim_spec(self.name@).len() == 0,
            },
    {
        CreateExpenseRequest::new(self.name.as_str())
    }
}

/// The pagination query parameters of a list request; absent values take
/// the defaults.
#[derive(Debug, Clone, Copy, PartialEq, Eq, Structural)]
pub struct PaginationRequestQueryParams {
    pub page: Option<u32>,
    pub size: Option<u32>,
}

/// The requested page, defaulting to the first.
pub open spec fn page_or_default(q: PaginationRequestQueryParams) -> u32 {
    match q.page {
        Some(p) => p,
        None => 1u32,
    }
}

/// The requested page size, defaulting to ten.
pub open spec fn size_or_default(q: PaginationRequestQueryParams) -> u32 {
    match q.size {
        Some(s) => s,
        None => 10u32,
    }
}

impl PaginationRequestQueryParams {
    /// Converts the query parameters into a domain request, applying the
    /// defaults and validating the pair.
    pub fn try_into_domain(self) -> (r: Result<ListExpensesRequest, PaginationError>)
        ensures
            match r {
                Ok(q) => page_or_default(self) >= 1 && size_or_default(self) >= 1 && q@ == (
                    page_or_default(self),
                    size_or_default(self),
                ),
                Err(e) => (page_or_default(self) == 0 || size_or_default(self) == 0) && e == (
                    PaginationError::InvalidPage {
                        page: page_or_default(self),
                        size: size_or_default(self),
                    }
                ),
            },
    {
        let page = match self.page {
            Some(p) => p,
            None => 1,
        };
        let size = match self.size {
            Some(s) => s,
            None => 10,
        };
        ListExpensesRequest::new(page, size)
    }
}

/// The response body data field for successful expense creation.
#[derive(Debug, Clone, PartialEq, Eq)]
pub struct CreateExpenseResponseData {
    pub id: String,
}

impl CreateExpenseResponseData {
    /// The data the creation endpoint answers with: the new identifier in
    /// its canonical text form.
    pub fn of_expense(expense: &Expense) -> (r: Self)
        ensures
            r.id@ == uuid_display(expense@.id),
    {
        Self { id: uuid_string(expense.id()) }
    }
}

/// The response body data field for one listed expense.
#[derive(Debug, Clone, PartialEq, Eq)]
pub struct ExpenseResponseData {
    pub id: String,
    pub name: String,
}

impl ExpenseResponseData {
    /// The data one listed expense is rendered as.
    pub fn of_expense(expense: &Expense) -> (r: Self)
        ensures
            r.id@ == uuid_display(expense@.id),
            r.name@ == expense@.name,
    {
        Self { id: uuid_string(expense.id()), name: expense.name().to_text() }
    }
}

/// The generic response body data field for listing objects.
#[derive(Debug, Clone, PartialEq, Eq)]
pub struct ListItemsResponseData<T> {
    pub items: Vec<T>,
}

impl<T> ListItemsResponseData<T> {
    pub fn new(items: Vec<T>) -> (r: Self)
        ensures
            r.items == items,
    {
        Self { items }
    }
}

/// Create a new expense.
///
/// Answers 201 with the new identifier when the service created the
/// expense; rejects an empty name and a duplicate name as unprocessable,
/// with their diagnostics; answers an opaque internal failure for any
/// unknown persistence error. The store changes exactly on success.
pub fn create_expense<FS: FinanceService>(
    state: &mut FS,
    body: CreateExpenseHttpRequestBody,
) -> (r: Result<ApiSuccess<CreateExpenseResponseData>, ApiError>)
    ensures
        trim_spec(body.name@).len() == 0 ==> (r matches Err(ApiError::UnprocessableEntity(m))
            && m@ == "expense name cannot be empty"@),
        match r {
            Ok(s) => {
                &&& trim_spec(body.name@).len() > 0
                &&& s.0 == STATUS_CREATED && s.1.status_code == STATUS_CREATED
                &&& !contains_name(old(state).expenses(), trim_spec(body.name@))
                &&& final(state).expenses() == old(state).expenses().push(
                    final(state).expenses().last(),
                )
                &&& final(state).expenses().last().name == trim_spec(body.name@)
                &&& s.1.data.id@ == uuid_display(final(state).expenses().last().id)
            },
            Err(err) => {
                &&& final(state).expenses() == old(state).expenses()
                &&& match err {
                    ApiError::UnprocessableEntity(m) => (trim_spec(body.name@).len() == 0 && m@
                        == "expense name cannot be empty"@) || (trim_spec(body.name@).len() > 0
                        && contains_name(old(state).expenses(), trim_spec(body.name@)) && m@
                        == duplicate_message(trim_spec(body.name@))),
                    ApiError::InternalServerError(m) => m@ == internal_error_text(),
                }
            },
        },
{
    let domain_req = match body.try_into_domain() {
        Ok(q) => q,
        Err(e) => {
            return Err(ApiError::from_empty_name_error(e));
        },
    };
    match state.create_expense(&domain_req) {
        Ok(expense) => {
            let data = CreateExpenseResponseData::of_expense(&expense);
            Ok(ApiSuccess::new(STATUS_CREATED, data))
        },
        Err(e) => Err(ApiError::from_create_expense_error(e)),
    }
}

/// List expenses.
///
/// Answers 200 with one rendered item per listed expense; rejects invalid
/// pagination as unprocessable with its diagnostic; answers an internal
/// failure carrying the wrapped cause when the repository fails. The
/// store never changes.
pub fn list_expenses<FS: FinanceService>(
    state: &mut FS,
    query: PaginationRequestQueryParams,
) -> (r: Result<ApiSuccess<ListItemsResponseData<ExpenseResponseData>>, ApiError>)
    ensures
        final(state).expenses() == old(state).expenses(),
        (page_or_default(query) == 0 || size_or_default(query) == 0) ==> (r matches Err(
            ApiError::UnprocessableEntity(m),
        ) && m@ == invalid_page_message(page_or_default(query), size_or_default(query))),
        match r {
            Ok(s) => {
                let listing = old(state).listing(page_or_default(query), size_or_default(query));
                &&& page_or_default(query) >= 1 && size_or_default(query) >= 1
                &&& s.0 == STATUS_OK && s.1.status_code == STATUS_OK
                &&& s.1.data.items@.len() == listing.len()
                &&& forall|i: int|
                    0 <= i < listing.len() ==> (#[trigger] s.1.data.items@[i]).id@ == uuid_display(
                        listing[i].id,
                    ) && s.1.data.items@[i].name@ == listing[i].name
            },
            Err(err) => match err {
                ApiError::UnprocessableEntity(m) => (page_or_default(query) == 0 || size_or_default(
                    query,
                ) == 0) && m@ == invalid_page_message(
                    page_or_default(query),
                    size_or_default(query),
                ),
                ApiError::InternalServerError(m) => m@.len() >= list_failure_context().len() && m@
                    .subrange(0, list_failure_context().len() as int) == list_failure_context(),
            },
        },
{
    let domain_req = match query.try_into_domain() {
        Ok(q) => q,
        Err(e) => {
            return Err(ApiError::from_pagination_error(e));
        },
    };
    match state.list_expenses(&domain_req) {
        Ok(expenses) => {
            let n = expenses.len();
            let mut items: Vec<ExpenseResponseData> = Vec::new();
            let mut i: usize = 0;
            while i < n
                invariant
                    i <= n,
                    n == expenses@.len(),
                    items@.len() == i,
                    forall|j: int|
                        0 <= j < i ==> (#[trigger] items@[j]).id@ == uuid_display(expenses@[j]@.id)
                            && items@[j].name@ == expenses@[j]@.name,
                decreases n - i,
            {
                items.push(ExpenseResponseData::of_expense(&expenses[i]));
                i = i + 1;
            }
            Ok(ApiSuccess::new(STATUS_OK, ListItemsResponseData::new(items)))
        },
        Err(e) => {
            proof {
                let m = list_failure_context() + crate::ports::repo_error_text(e.cause);
                assert(m.subrange(0, list_failure_context().len() as int) =~= list_failure_context());
            }
            Err(ApiError::from_list_expenses_error(e))
        },
    }
}

} // verus!
