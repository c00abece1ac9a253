//! A minimal metrics adapter. Recording is a no-op at run time — the
//! counters are ghost state — which is exactly what the metrics port
//! demands to know: how often each hook was driven, and nothing more.

use vstd::prelude::*;
use crate::ports::FinanceMetrics;

verus! {

/// An adapter to [`FinanceMetrics`] that tracks the three counters as
/// ghost state and performs no run-time work.
pub struct Prometheus {
    successes: Ghost<nat>,
    failures: Ghost<nat>,
    list_successes: Ghost<nat>,
}

impl Prometheus {
    /// A sink with all counters at zero.
    pub fn new() -> (r: Self)
        ensures
            r.creation_successes() == 0,
            r.creation_failures() == 0,
            r.list_successes() == 0,
    {
        Self { successes: Ghost(0), failures: Ghost(0), list_successes: Ghost(0) }
    }
}

impl FinanceMetrics for Prometheus {
    closed spec fn creation_successes(&self) -> nat {
        self.successes@
    }

    closed spec fn creation_failures(&self) -> nat {
        self.failures@
    }

    closed spec fn list_successes(&self) -> nat {
        self.list_successes@
    }

    fn record_expense_creation_success(&mut self) {
        self.successes = Ghost(self.successes@ + 1);
    }

    fn record_expense_creation_failure(&mut self) {
        self.failures = Ghost(self.failures@ + 1);
    }

    fn record_expense_list_success(&mut self) {
        self.list_successes = Ghost(self.list_successes@ + 1);
    }
}

} // verus!
