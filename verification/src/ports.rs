//! The capability ports the domain depends on: a repository of expense
//! records, a metrics sink and a notifier, and the aggregate service
//! contract the transport layer consumes. Each port is an abstract
//! contract; adapters must satisfy it exactly.

use vstd::prelude::*;
use crate::expense::{
    CreateExpenseError, CreateExpenseRequest, Expense, ExpenseModel, ListExpensesRequest,
};

verus! {

/// The models of the expenses in a sequence of records.
pub open spec fn views_of(v: Seq<Expense>) -> Seq<ExpenseModel> {
    v.map_values(|e: Expense| e@)
}

/// Whether some record in `s` carries the name `name`.
pub open spec fn contains_name(s: Seq<ExpenseModel>, name: Seq<char>) -> bool {
    exists|i: int| 0 <= i < s.len() && s[i].name == name
}

/// What any create operation says of the stored records: success appends
/// exactly the returned expense, which carries the requested name and was
/// not stored before; a duplicate report names the requested name and is
/// truthful; any failure leaves the store unchanged.
pub open spec fn create_respects_store(
    before: Seq<ExpenseModel>,
    after: Seq<ExpenseModel>,
    req: Seq<char>,
    r: Result<Expense, CreateExpenseError>,
) -> bool {
    match r {
        Ok(e) => e@.name == req && !contains_name(before, req) && after == before.push(e@),
        Err(CreateExpenseError::Duplicate { name }) => name@ == req && contains_name(before, req)
            && after == before,
        Err(CreateExpenseError::Unknown { .. }) => after == before,
    }
}

/// `ExpenseRepository` represents a store of expense data.
pub trait ExpenseRepository: Sized {
    /// The records the store currently holds, in insertion order.
    spec fn expenses(&self) -> Seq<ExpenseModel>;

    /// The listing the store answers for a page of the given shape.
    /// Being a function of the store, it is deterministic and stable
    /// across repeated calls with no intervening writes.
    spec fn listing(&self, page: u32, size: u32) -> Seq<ExpenseModel>;

    /// Persist a new [`Expense`]. MUST report a duplicate exactly when an
    /// expense with the same name already exists; any other persistence
    /// failure surfaces as `Unknown` and leaves the store unchanged.
    fn create_expense(&mut self, req: &CreateExpenseRequest) -> (r: Result<
        Expense,
        CreateExpenseError,
    >)
        ensures
            create_respects_store(old(self).expenses(), final(self).expenses(), req@, r),
    ;

    /// Retrieve the listing for `req`; the store itself is untouched.
    fn list_expenses(&self, req: &ListExpensesRequest) -> (r: Result<
        Vec<Expense>,
        ExpenseRepositoryError,
    >)
        ensures
            (r matches Ok(v) ==> views_of(v@) == self.listing(req@.0, req@.1)),
    ;
}

/// Failure of a repository list operation.
#[derive(Debug)]
pub enum ExpenseRepositoryError {
    /// The backing store did not respond in time.
    Timeout,
    /// Any other infrastructure failure, carrying the underlying cause.
    Unknown { message: String },
}

/// The diagnostic text of a repository error.
pub open spec fn repo_error_text(e: ExpenseRepositoryError) -> Seq<char> {
    match e {
        ExpenseRepositoryError::Timeout => "Repository Timed out"@,
        ExpenseRepositoryError::Unknown { message } => message@,
    }
}

impl ExpenseRepositoryError {
    /// The diagnostic text of this error.
    pub fn message(&self) -> (r: String)
        ensures
            r@ == repo_error_text(*self),
    {
        match self {
            ExpenseRepositoryError::Timeout => "Repository Timed out".to_owned(),
            ExpenseRepositoryError::Unknown { message } => message.clone(),
        }
    }
}

/// The generic error a service list operation propagates: the repository's
/// failure, wrapped with context and never discarded.
#[derive(Debug)]
pub struct ListExpensesError {
    pub cause: ExpenseRepositoryError,
}

/// The context the service adds when a list operation fails.
pub open spec fn list_failure_context() -> Seq<char> {
    "Failed to list expenses: "@
}

impl ListExpensesError {
    /// The diagnostic text: the context followed by the cause's text.
    pub fn message(&self) -> (r: String)
        ensures
            r@ == list_failure_context() + repo_error_text(self.cause),
    {
        let mut m = "Failed to list expenses: ".to_owned();
        let c = self.cause.message();
        m.append(c.as_str());
        m
    }
}

/// `FinanceMetrics` describes an aggregator of finance-related metrics,
/// such as a time-series database. Recording is a fire-and-forget side
/// effect: it never fails the calling operation.
pub trait FinanceMetrics: Sized {
    /// How many successful creations were recorded.
    spec fn creation_successes(&self) -> nat;

    /// How many failed creations were recorded.
    spec fn creation_failures(&self) -> nat;

    /// How many successful listings were recorded.
    spec fn list_successes(&self) -> nat;

    /// Record a successful expense creation: exactly one more success,
    /// nothing else touched.
    fn record_expense_creation_success(&mut self)
        ensures
            final(self).creation_successes() == old(self).creation_successes() + 1,
            final(self).creation_failures() == old(self).creation_failures(),
            final(self).list_successes() == old(self).list_successes(),
    ;

    /// Record an expense creation failure: exactly one more failure,
    /// nothing else touched.
    fn record_expense_creation_failure(&mut self)
        ensures
            final(self).creation_failures() == old(self).creation_failures() + 1,
            final(self).creation_successes() == old(self).creation_successes(),
            final(self).list_successes() == old(self).list_successes(),
    ;

    /// Record a successful expense listing: exactly one more, nothing
    /// else touched.
    fn record_expense_list_success(&mut self)
        ensures
            final(self).list_successes() == old(self).list_successes() + 1,
            final(self).creation_successes() == old(self).creation_successes(),
            final(self).creation_failures() == old(self).creation_failures(),
    ;
}

/// `ExpenseNotifier` triggers notifications about expenses. Notification
/// is a fire-and-forget side effect: it never fails the calling
/// operation.
pub trait ExpenseNotifier: Sized {
    /// The expenses notified about so far, in order.
    spec fn notified(&self) -> Seq<ExpenseModel>;

    /// Notify that `expense` was created: appends exactly that expense.
    fn expense_created(&mut self, expense: &Expense)
        ensures
            final(self).notified() == old(self).notified().push(expense@),
    ;
}

/// `FinanceService` is the public API for the finance domain: the
/// aggregate port a transport adapter depends on.
pub trait FinanceService: Sized {
    /// The records the underlying store currently holds.
    spec fn expenses(&self) -> Seq<ExpenseModel>;

    /// The listing the underlying store answers for a page of the given
    /// shape.
    spec fn listing(&self, page: u32, size: u32) -> Seq<ExpenseModel>;

    /// Create the expense `req` asks for. Propagates the repository's
    /// error kind unchanged: a duplicate stays observable as a duplicate.
    fn create_expense(&mut self, req: &CreateExpenseRequest) -> (r: Result<
        Expense,
        CreateExpenseError,
    >)
        ensures
            create_respects_store(old(self).expenses(), final(self).expenses(), req@, r),
    ;

    /// List expenses. On success the result is exactly the store's
    /// listing; any failure wraps the repository's error. The store is
    /// never changed.
    fn list_expenses(&mut self, req: &ListExpensesRequest) -> (r: Result<
        Vec<Expense>,
        ListExpensesError,
    >)
        ensures
            final(self).expenses() == old(self).expenses(),
            (r matches Ok(v) ==> views_of(v@) == old(self).listing(req@.0, req@.1)),
    ;
}

} // verus!
