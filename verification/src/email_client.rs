//! A minimal notifier adapter: an email client stub that keeps the
//! expenses it was asked to announce in an outbox instead of delivering
//! anything. The outbox is the port's abstract record made concrete, so
//! callers and tests can observe exactly what was notified, in order.

use vstd::prelude::*;
use crate::expense::{Expense, ExpenseModel};
use crate::ports::{views_of, ExpenseNotifier};

verus! {

/// An adapter to [`ExpenseNotifier`] that records every notified expense
/// in an outbox.
pub struct EmailClient {
    outbox: Vec<Expense>,
}

impl EmailClient {
    /// A notifier that has notified nothing yet.
    pub fn new() -> (r: Self)
        ensures
            r.notified() == Seq::<ExpenseModel>::empty(),
    {
        let r = Self { outbox: Vec::new() };
        proof {
            assert(views_of(r.outbox@) =~= Seq::<ExpenseModel>::empty());
        }
        r
    }

    /// The expenses notified about so far, in order.
    pub fn sent(&self) -> (r: &Vec<Expense>)
        ensures
            views_of(r@) == self.notified(),
    {
        &self.outbox
    }
}

impl ExpenseNotifier for EmailClient {
    closed spec fn notified(&self) -> Seq<ExpenseModel> {
        views_of(self.outbox@)
    }

    fn expense_created(&mut self, expense: &Expense) {
        self.outbox.push(expense.clone());
        proof {
            assert(views_of(self.outbox@) =~= views_of(old(self).outbox@).push(expense@));
        }
    }
}

} // verus!
