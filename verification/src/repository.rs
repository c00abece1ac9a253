//! Repository adapters' verified side: an in-memory implementation of the
//! repository port, and the decision rules any SQL-backed adapter applies
//! when it maps storage failures and decodes stored rows.

use vstd::prelude::*;
use crate::expense::{
    CreateExpenseError, CreateExpenseRequest, Expense, ExpenseModel, ExpenseName,
    ExpenseNameEmptyError, ListExpensesRequest,
};
use crate::ports::{contains_name, views_of, ExpenseRepository, ExpenseRepositoryError};
use crate::text::trim_spec;

verus! {

/// How an [`InMemoryRepository`] answers a list request: normally, or
/// with one of the two documented failures, injected for exercising the
/// failure paths.
#[derive(Clone, Copy, Debug, PartialEq, Eq, Structural)]
pub enum ListBehavior {
    Answer,
    Timeout,
    Unknown,
}

/// An in-memory store of expense data: an [`ExpenseRepository`] adapter
/// for tests and self-contained deployments. Uniqueness of names is
/// enforced by scanning the stored records; identifiers are assigned from
/// a counter. The failure flags inject the documented failure outcomes.
pub struct InMemoryRepository {
    /// The stored records, in insertion order.
    pub store: Vec<Expense>,
    /// The identifier the next created expense receives.
    pub next_id: u128,
    /// When set, every create fails with an `Unknown` error.
    pub fail_create: bool,
    /// How list requests are answered.
    pub list_behavior: ListBehavior,
}

impl InMemoryRepository {
    /// An empty store that answers normally, numbering records from 1.
    pub fn new() -> (r: Self)
        ensures
            r.expenses() == Seq::<ExpenseModel>::empty(),
            r.next_id == 1,
            !r.fail_create,
            r.list_behavior == ListBehavior::Answer,
    {
        let r = Self {
            store: Vec::new(),
            next_id: 1,
            fail_create: false,
            list_behavior: ListBehavior::Answer,
        };
        proof {
            assert(views_of(r.store@) =~= Seq::<ExpenseModel>::empty());
        }
        r
    }
}

impl ExpenseRepository for InMemoryRepository {
    open spec fn expenses(&self) -> Seq<ExpenseModel> {
        views_of(self.store@)
    }

    /// Like the reference SQL adapter, the in-memory store answers every
    /// page with the whole record set; windowing is left to adapters by
    /// the port.
    open spec fn listing(&self, page: u32, size: u32) -> Seq<ExpenseModel> {
        views_of(self.store@)
    }

    /// Stores the expense unless its name is already taken, assigning
    /// `next_id`; with `fail_create` set, reports an `Unknown` failure
    /// and changes nothing.
    fn create_expense(&mut self, req: &CreateExpenseRequest) -> (r: Result<
        Expense,
        CreateExpenseError,
    >)
        ensures
            final(self).fail_create == old(self).fail_create,
            final(self).list_behavior == old(self).list_behavior,
            old(self).fail_create ==> (r matches Err(CreateExpenseError::Unknown { .. })
                && *final(self) == *old(self)),
            !old(self).fail_create && contains_name(old(self).expenses(), req@) ==> r matches Err(
                CreateExpenseError::Duplicate { .. },
            ),
            !old(self).fail_create && !contains_name(old(self).expenses(), req@) ==> (r matches Ok(
                e,
            ) && e@ == (ExpenseModel { id: old(self).next_id, name: req@ })),
    {
        if self.fail_create {
            return Err(
                CreateExpenseError::Unknown { message: "injected storage failure".to_owned() },
            );
        }
        let n = self.store.len();
        let mut i: usize = 0;
        while i < n
            invariant
                i <= n,
                *self == *old(self),
                !old(self).fail_create,
                n == self.store.len(),
                forall|j: int| 0 <= j < i ==> self.store@[j]@.name != req@,
            decreases n - i,
        {
            if self.store[i].name().eq(req.name()) {
                assert(contains_name(self.expenses(), req@)) by {
                    assert(views_of(self.store@)[i as int].name == req@);
                }
                return Err(CreateExpenseError::Duplicate { name: req.name().to_text() });
            }
            i = i + 1;
        }
        proof {
            assert forall|k: int| 0 <= k < views_of(self.store@).len()
                implies views_of(self.store@)[k].name != req@ by {
                assert(self.store@[k]@.name != req@);
            }
        }
        let e = Expense::new(self.next_id, req.name().clone());
        self.store.push(e.clone());
        if self.next_id < u128::MAX {
            self.next_id = self.next_id + 1;
        }
        proof {
            assert(views_of(self.store@) =~= views_of(old(self).store@).push(e@));
        }
        Ok(e)
    }

    /// Answers with a copy of the stored records, or with the injected
    /// failure.
    fn list_expenses(&self, req: &ListExpensesRequest) -> (r: Result<
        Vec<Expense>,
        ExpenseRepositoryError,
    >)
        ensures
            self.list_behavior == ListBehavior::Answer ==> r matches Ok(_),
            self.list_behavior == ListBehavior::Timeout ==> r matches Err(
                ExpenseRepositoryError::Timeout,
            ),
            self.list_behavior == ListBehavior::Unknown ==> r matches Err(
                ExpenseRepositoryError::Unknown { .. },
            ),
    {
        match self.list_behavior {
            ListBehavior::Answer => {
                let n = self.store.len();
                let mut out: Vec<Expense> = Vec::new();
                let mut i: usize = 0;
                while i < n
                    invariant
                        i <= n,
                        n == self.store.len(),
                        out@.len() == i,
                        forall|j: int| 0 <= j < i ==> out@[j]@ == self.store@[j]@,
                    decreases n - i,
                {
                    out.push(self.store[i].clone());
                    i = i + 1;
                }
                proof {
                    assert(views_of(out@) =~= views_of(self.store@));
                }
                Ok(out)
            },
            ListBehavior::Timeout => Err(ExpenseRepositoryError::Timeout),
            ListBehavior::Unknown => Err(
                ExpenseRepositoryError::Unknown { message: "injected storage failure".to_owned() },
            ),
        }
    }
}

/// The SQL error code the reference storage schema raises on a violated
/// name-uniqueness constraint.
pub open spec fn unique_constraint_violation_code() -> Seq<char> {
    "2067"@
}

/// Decides whether a storage error code names a violated uniqueness
/// constraint. A SQL adapter hands in the code of the database error, or
/// nothing when the failure carried none.
pub fn is_unique_constraint_violation(code: Option<&str>) -> (r: bool)
    ensures
        r == (code matches Some(c) && c@ == unique_constraint_violation_code()),
{
    match code {
        Some(c) => {
            let given = c.to_owned();
            let expected = "2067".to_owned();
            given == expected
        },
        None => false,
    }
}

/// The context a SQL adapter attaches to a save failure that is no
/// duplicate.
pub open spec fn save_failure_message(name: Seq<char>) -> Seq<char> {
    "failed to save expense with name "@ + name
}

/// Maps the outcome of a failed save: a violated uniqueness constraint
/// becomes the duplicate error carrying the requested name, anything else
/// an `Unknown` error carrying context.
pub fn map_save_error(unique_violation: bool, name: &ExpenseName) -> (r: CreateExpenseError)
    ensures
        unique_violation ==> (r matches CreateExpenseError::Duplicate { name: n } && n@ == name@),
        !unique_violation ==> (r matches CreateExpenseError::Unknown { message: m } && m@
            == save_failure_message(name@)),
{
    if unique_violation {
        CreateExpenseError::Duplicate { name: name.to_text() }
    } else {
        let mut m = "failed to save expense with name ".to_owned();
        m.append(name.as_str());
        CreateExpenseError::Unknown { message: m }
    }
}

/// Decodes one stored row into an [`Expense`]: the identifier as a plain
/// 128-bit value, the name re-validated through the one validation gate.
pub fn expense_from_record(id: u128, name: &str) -> (r: Result<Expense, ExpenseNameEmptyError>)
    ensures
        match r {
            Ok(e) => trim_spec(name@).len() > 0 && e@ == (ExpenseModel {
                id,
                name: trim_spec(name@),
            }),
            Err(_) => trim_spec(name@).len() == 0,
        },
{
    match ExpenseName::new(name) {
        Ok(n) => Ok(Expense::new(id, n)),
        Err(e) => Err(e),
    }
}

} // verus!
