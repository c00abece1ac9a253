//! The finance service: the one concrete orchestrator behind the
//! `FinanceService` port. It composes a repository, a metrics sink and a
//! notifier, injected at construction, and sequences their effects:
//! repository first, then metrics, then (on success only) notification.

use vstd::prelude::*;
use crate::expense::{CreateExpenseError, CreateExpenseRequest, Expense, ExpenseModel, ListExpensesRequest};
use crate::ports::{
    ExpenseNotifier, ExpenseRepository, FinanceMetrics, FinanceService, ListExpensesError,
};

verus! {

/// Canonical implementation of the [`FinanceService`] port, through which
/// the finance domain API is consumed.
pub struct Service<R, M, N> where R: ExpenseRepository, M: FinanceMetrics, N: ExpenseNotifier {
    pub repo: R,
    pub metrics: M,
    pub expense_notifier: N,
}

impl<R, M, N> Service<R, M, N> where R: ExpenseRepository, M: FinanceMetrics, N: ExpenseNotifier {
    pub fn new(repo: R, metrics: M, expense_notifier: N) -> (r: Self)
        ensures
            r.repo == repo,
            r.metrics == metrics,
            r.expense_notifier == expense_notifier,
    {
        Self { repo, metrics, expense_notifier }
    }
}

impl<R, M, N> FinanceService for Service<R, M, N> where
    R: ExpenseRepository,
    M: FinanceMetrics,
    N: ExpenseNotifier,
 {
    open spec fn expenses(&self) -> Seq<ExpenseModel> {
        self.repo.expenses()
    }

    open spec fn listing(&self, page: u32, size: u32) -> Seq<ExpenseModel> {
        self.repo.listing(page, size)
    }

    /// Create the expense `req` asks for and trigger the side effects.
    ///
    /// The repository's verdict is returned unchanged. On success, exactly
    /// one creation-success metric is recorded and the new expense is
    /// notified exactly once; on failure, exactly one creation-failure
    /// metric is recorded and nothing is notified.
    fn create_expense(&mut self, req: &CreateExpenseRequest) -> (r: Result<
        Expense,
        CreateExpenseError,
    >)
        ensures
            final(self).metrics.list_successes() == old(self).metrics.list_successes(),
            match r {
                Ok(e) => {
                    &&& final(self).metrics.creation_successes() == old(
                        self,
                    ).metrics.creation_successes() + 1
                    &&& final(self).metrics.creation_failures() == old(
                        self,
                    ).metrics.creation_failures()
                    &&& final(self).expense_notifier.notified() == old(
                        self,
                    ).expense_notifier.notified().push(e@)
                },
                Err(_) => {
                    &&& final(self).metrics.creation_failures() == old(
                        self,
                    ).metrics.creation_failures() + 1
                    &&& final(self).metrics.creation_successes() == old(
                        self,
                    ).metrics.creation_successes()
                    &&& final(self).expense_notifier.notified() == old(
                        self,
                    ).expense_notifier.notified()
                },
            },
    {
        let result = self.repo.create_expense(req);
        if result.is_err() {
            self.metrics.record_expense_creation_failure();
        } else {
            self.metrics.record_expense_creation_success();
            self.expense_notifier.expense_created(result.as_ref().unwrap());
        }
        result
    }

    /// List expenses through the repository.
    ///
    /// On success, exactly one list-success metric is recorded and the
    /// repository's answer is returned unchanged; on failure, the
    /// repository's error is wrapped, no metric is recorded and nothing
    /// is notified.
    fn list_expenses(&mut self, req: &ListExpensesRequest) -> (r: Result<
        Vec<Expense>,
        ListExpensesError,
    >)
        ensures
            final(self).repo == old(self).repo,
            final(self).expense_notifier.notified() == old(self).expense_notifier.notified(),
            match r {
                Ok(_) => {
                    &&& final(self).metrics.list_successes() == old(self).metrics.list_successes()
                        + 1
                    &&& final(self).metrics.creation_successes() == old(
                        self,
                    ).metrics.creation_successes()
                    &&& final(self).metrics.creation_failures() == old(
                        self,
                    ).metrics.creation_failures()
                },
                Err(_) => final(self).metrics == old(self).metrics,
            },
    {
        let result = self.repo.list_expenses(req);
        match result {
            Ok(v) => {
                self.metrics.record_expense_list_success();
                Ok(v)
            },
            Err(e) => Err(ListExpensesError { cause: e }),
        }
    }
}

/// How often the expense `e` occurs in `s`.
pub open spec fn count_of(s: Seq<ExpenseModel>, e: ExpenseModel) -> int
    decreases s.len(),
{
    if s.len() == 0 {
        0
    } else {
        count_of(s.drop_last(), e) + if s.last() == e {
            1int
        } else {
            0int
        }
    }
}

/// Appending one expense raises exactly its own count.
pub proof fn lemma_count_push(s: Seq<ExpenseModel>, x: ExpenseModel, e: ExpenseModel)
    ensures
        count_of(s.push(x), e) == count_of(s, e) + if x == e {
            1int
        } else {
            0int
        },
{
    assert(s.push(x).drop_last() =~= s);
}

/// Law: notifications do not cross-talk. Two creations of distinct
/// expenses — as `create_expense` appends them to the notifier's record —
/// raise the notification count of each expense by exactly one, and one
/// creation never touches the other's count.
pub proof fn lemma_notification_no_crosstalk(
    n0: Seq<ExpenseModel>,
    e1: ExpenseModel,
    e2: ExpenseModel,
)
    requires
        e1 != e2,
    ensures
        count_of(n0.push(e1).push(e2), e1) == count_of(n0, e1) + 1,
        count_of(n0.push(e1).push(e2), e2) == count_of(n0, e2) + 1,
{
    lemma_count_push(n0, e1, e1);
    lemma_count_push(n0, e1, e2);
    lemma_count_push(n0.push(e1), e2, e1);
    lemma_count_push(n0.push(e1), e2, e2);
}

} // verus!
