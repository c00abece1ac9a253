//! The domain model: expenses, validated expense names, the request values
//! the service consumes, and the domain error types.

use vstd::prelude::*;
use crate::text::{trim, trim_spec, decimal_str, u32_to_string};

verus! {

/// Mathematical value of an [`Expense`]: its identifier and its name text.
pub ghost struct ExpenseModel {
    pub id: u128,
    pub name: Seq<char>,
}

/// A validated and formatted name.
///
/// Invariant: the text is non-empty and carries no leading or trailing
/// white space. Construction through [`ExpenseName::new`] is the only
/// validation gate; a value of this type never needs re-validation.
#[derive(Debug)]
pub struct ExpenseName(String);

/// The error of validating an expense name that is empty after trimming.
#[derive(Clone, Copy, Debug, PartialEq, Eq, Structural)]
pub struct ExpenseNameEmptyError;

impl View for ExpenseName {
    type V = Seq<char>;

    closed spec fn view(&self) -> Seq<char> {
        self.0@
    }
}

impl ExpenseName {
    /// Every value of this type is non-empty, already-trimmed text.
    #[verifier::type_invariant]
    pub open spec fn wf(&self) -> bool {
        self@ == trim_spec(self@) && self@.len() > 0
    }

    /// Trims `raw`; rejects it when nothing but white space remains,
    /// otherwise wraps the trimmed text.
    pub fn new(raw: &str) -> (r: Result<Self, ExpenseNameEmptyError>)
        ensures
            match r {
                Ok(n) => trim_spec(raw@).len() > 0 && n@ == trim_spec(raw@),
                Err(_) => trim_spec(raw@).len() == 0,
            },
    {
        let trimmed = trim(raw);
        if trimmed.as_str().is_empty() {
            Err(ExpenseNameEmptyError)
        } else {
            proof {
                crate::text::lemma_trim_idempotent(raw@);
            }
            Ok(Self(trimmed))
        }
    }

    /// The validated text.
    pub fn as_str(&self) -> (r: &str)
        ensures
            r@ == self@,
    {
        self.0.as_str()
    }

    /// The validated text as an owned string.
    pub fn to_text(&self) -> (r: String)
        ensures
            r@ == self@,
    {
        self.0.clone()
    }

}

/// Law: validation is idempotent. If validating some raw text produced a
/// name with text `first`, validating `first` itself succeeds and yields
/// the very same text.
pub proof fn lemma_validation_idempotent(raw: Seq<char>, first: Seq<char>)
    requires
        first == trim_spec(raw),
        first.len() > 0,
    ensures
        trim_spec(first).len() > 0,
        trim_spec(first) == first,
{
    crate::text::lemma_trim_idempotent(raw);
}

impl Clone for ExpenseName {
    fn clone(&self) -> (r: Self)
        ensures
            r@ == self@,
    {
        proof {
            use_type_invariant(self);
        }
        ExpenseName(self.0.clone())
    }
}

impl PartialEq for ExpenseName {
    fn eq(&self, other: &Self) -> bool {
        self.0 == other.0
    }
}

impl vstd::std_specs::cmp::PartialEqSpecImpl for ExpenseName {
    open spec fn obeys_eq_spec() -> bool {
        true
    }

    open spec fn eq_spec(&self, other: &Self) -> bool {
        self@ == other@
    }
}

/// An expense record: a 128-bit identifier assigned by whichever
/// repository persisted it, and a validated name.
#[derive(Debug)]
pub struct Expense {
    id: u128,
    name: ExpenseName,
}

impl View for Expense {
    type V = ExpenseModel;

    closed spec fn view(&self) -> ExpenseModel {
        ExpenseModel { id: self.id, name: self.name@ }
    }
}

impl Expense {
    pub fn new(id: u128, name: ExpenseName) -> (r: Self)
        ensures
            r@ == (ExpenseModel { id, name: name@ }),
    {
        Self { id, name }
    }

    pub fn id(&self) -> (r: u128)
        ensures
            r == self@.id,
    {
        self.id
    }

    pub fn name(&self) -> (r: &ExpenseName)
        ensures
            r@ == self@.name,
    {
        &self.name
    }
}

impl Clone for Expense {
    fn clone(&self) -> (r: Self)
        ensures
            r@ == self@,
    {
        Expense { id: self.id, name: self.name.clone() }
    }
}

impl PartialEq for Expense {
    fn eq(&self, other: &Self) -> bool {
        self.id == other.id && self.name == other.name
    }
}

impl vstd::std_specs::cmp::PartialEqSpecImpl for Expense {
    open spec fn obeys_eq_spec() -> bool {
        true
    }

    open spec fn eq_spec(&self, other: &Self) -> bool {
        self@ == other@
    }
}

/// The fields required by the domain to create an [`Expense`].
#[derive(Debug)]
pub struct CreateExpenseRequest {
    name: ExpenseName,
}

impl View for CreateExpenseRequest {
    type V = Seq<char>;

    closed spec fn view(&self) -> Seq<char> {
        self.name@
    }
}

impl CreateExpenseRequest {
    /// Validates `name` exactly as [`ExpenseName::new`] does.
    pub fn new(name: &str) -> (r: Result<Self, ExpenseNameEmptyError>)
        ensures
            match r {
                Ok(q) => trim_spec(name@).len() > 0 && q@ == trim_spec(name@),
                Err(_) => trim_spec(name@).len() == 0,
            },
    {
        match ExpenseName::new(name) {
            Ok(n) => Ok(Self { name: n }),
            Err(e) => Err(e),
        }
    }

    /// Wraps an already validated name.
    pub fn from_name(name: ExpenseName) -> (r: Self)
        ensures
            r@ == name@,
    {
        Self { name }
    }

    pub fn name(&self) -> (r: &ExpenseName)
        ensures
            r@ == self@,
    {
        &self.name
    }
}

/// The fields required by the domain to list [`Expense`] records:
/// a 1-indexed page and a positive page size.
#[derive(Debug)]
pub struct ListExpensesRequest {
    page: u32,
    size: u32,
}

impl View for ListExpensesRequest {
    type V = (u32, u32);

    closed spec fn view(&self) -> (u32, u32) {
        (self.page, self.size)
    }
}

impl ListExpensesRequest {
    /// Accepts exactly the pairs with `page >= 1` and `size >= 1`.
    pub fn new(page: u32, size: u32) -> (r: Result<Self, PaginationError>)
        ensures
            match r {
                Ok(q) => page >= 1 && size >= 1 && q@ == (page, size),
                Err(e) => (page == 0 || size == 0) && e == (PaginationError::InvalidPage {
                    page,
                    size,
                }),
            },
    {
        if page == 0 || size == 0 {
            Err(PaginationError::InvalidPage { page, size })
        } else {
            Ok(Self { page, size })
        }
    }
}

/// Failure of a create operation, as the repository port reports it.
#[derive(Debug)]
pub enum CreateExpenseError {
    /// An expense with the same name already exists.
    Duplicate { name: String },
    /// Any other persistence failure, carrying the underlying cause.
    Unknown { message: String },
}

/// The text of the duplicate-name diagnostic.
pub open spec fn duplicate_message(name: Seq<char>) -> Seq<char> {
    "expense with name "@ + name + " already exists"@
}

impl CreateExpenseError {
    /// The diagnostic text of this error.
    pub fn message(&self) -> (r: String)
        ensures
            match self {
                CreateExpenseError::Duplicate { name } => r@ == duplicate_message(name@),
                CreateExpenseError::Unknown { message } => r@ == message@,
            },
    {
        match self {
            CreateExpenseError::Duplicate { name } => {
                let mut m = "expense with name ".to_owned();
                m.append(name.as_str());
                m.append(" already exists");
                m
            },
            CreateExpenseError::Unknown { message } => message.clone(),
        }
    }
}

/// Failure of validating pagination input or resolving a page.
#[derive(Debug)]
pub enum PaginationError {
    /// `page` or `size` was zero.
    InvalidPage { page: u32, size: u32 },
    /// The requested page does not exist.
    PageNotFound { page: u32 },
    /// Any other failure, carrying the underlying cause.
    Unknown { message: String },
}

/// The text of the invalid-pagination diagnostic.
pub open spec fn invalid_page_message(page: u32, size: u32) -> Seq<char> {
    "Invalid page "@ + decimal_str(page as int) + " or size "@ + decimal_str(size as int)
}

/// The text of the missing-page diagnostic.
pub open spec fn page_not_found_message(page: u32) -> Seq<char> {
    "Page not found: "@ + decimal_str(page as int)
}

impl PaginationError {
    /// The diagnostic text of this error.
    pub fn message(&self) -> (r: String)
        ensures
            match self {
                PaginationError::InvalidPage { page, size } => r@ == invalid_page_message(
                    *page,
                    *size,
                ),
                PaginationError::PageNotFound { page } => r@ == page_not_found_message(*page),
                PaginationError::Unknown { message } => r@ == message@,
            },
    {
        match self {
            PaginationError::InvalidPage { page, size } => {
                let mut m = "Invalid page ".to_owned();
                let p = u32_to_string(*page);
                m.append(p.as_str());
                m.append(" or size ");
                let s = u32_to_string(*size);
                m.append(s.as_str());
                m
            },
            PaginationError::PageNotFound { page } => {
                let mut m = "Page not found: ".to_owned();
                let p = u32_to_string(*page);
                m.append(p.as_str());
                m
            },
            PaginationError::Unknown { message } => message.clone(),
        }
    }
}

impl ExpenseNameEmptyError {
    /// The diagnostic text of this error.
    pub fn message(&self) -> (r: String)
        ensures
            r@ == "expense name cannot be empty"@,
    {
        "expense name cannot be empty".to_owned()
    }
}

} // verus!
