//! Tests of the domain model: name validation, pagination validation,
//! and the diagnostic texts.

use expense_service::expense::{
    CreateExpenseError, CreateExpenseRequest, Expense, ExpenseName, ExpenseNameEmptyError,
    ListExpensesRequest, PaginationError,
};

#[test]
fn empty_name_is_rejected() {
    assert!(ExpenseName::new("").is_err());
    assert!(CreateExpenseRequest::new("").is_err());
}

#[test]
fn whitespace_only_name_is_rejected() {
    assert!(ExpenseName::new("   ").is_err());
    assert!(ExpenseName::new("\t\n\r ").is_err());
    assert!(CreateExpenseRequest::new(" \t ").is_err());
}

#[test]
fn unicode_whitespace_only_name_is_rejected() {
    assert!(ExpenseName::new("\u{00A0}\u{2003}\u{3000}").is_err());
}

#[test]
fn name_is_trimmed() {
    let n = ExpenseName::new("  Rent \t").unwrap();
    assert_eq!(n.as_str(), "Rent");
    assert_eq!(n.to_text(), "Rent".to_string());
}

#[test]
fn unicode_whitespace_is_trimmed() {
    let n = ExpenseName::new("\u{3000}Rent\u{2009}").unwrap();
    assert_eq!(n.as_str(), "Rent");
}

#[test]
fn internal_whitespace_is_preserved() {
    let n = ExpenseName::new(" Coffee  Beans ").unwrap();
    assert_eq!(n.as_str(), "Coffee  Beans");
}

#[test]
fn create_request_stores_trimmed_name() {
    let q = CreateExpenseRequest::new("  Rent ").unwrap();
    assert_eq!(q.name().as_str(), "Rent");
}

#[test]
fn requests_can_wrap_validated_names() {
    let name = ExpenseName::new("Rent").unwrap();
    let q = CreateExpenseRequest::from_name(name);
    assert_eq!(q.name().as_str(), "Rent");
}

#[test]
fn validation_is_idempotent() {
    let a = ExpenseName::new(" Rent ").unwrap();
    let b = ExpenseName::new(" Rent ").unwrap();
    assert_eq!(a, b);
    let again = ExpenseName::new(a.as_str()).unwrap();
    assert_eq!(a, again);
}

#[test]
fn empty_name_error_message() {
    let e: ExpenseNameEmptyError = ExpenseName::new(" ").unwrap_err();
    assert_eq!(e.message(), "expense name cannot be empty".to_string());
}

#[test]
fn zero_page_is_rejected() {
    match ListExpensesRequest::new(0, 5) {
        Err(PaginationError::InvalidPage { page, size }) => {
            assert_eq!(page, 0);
            assert_eq!(size, 5);
        },
        other => panic!("expected InvalidPage, got {:?}", other),
    }
}

#[test]
fn zero_size_is_rejected() {
    assert!(ListExpensesRequest::new(3, 0).is_err());
    assert!(ListExpensesRequest::new(0, 0).is_err());
}

#[test]
fn positive_page_and_size_are_accepted() {
    assert!(ListExpensesRequest::new(1, 1).is_ok());
    assert!(ListExpensesRequest::new(1, 10).is_ok());
    assert!(ListExpensesRequest::new(u32::MAX, u32::MAX).is_ok());
}

#[test]
fn invalid_page_message_text() {
    let e = ListExpensesRequest::new(0, 7).unwrap_err();
    assert_eq!(e.message(), "Invalid page 0 or size 7".to_string());
}

#[test]
fn page_not_found_message_text() {
    let e = PaginationError::PageNotFound { page: 12 };
    assert_eq!(e.message(), "Page not found: 12".to_string());
}

#[test]
fn large_numbers_render_in_decimal() {
    let e = PaginationError::PageNotFound { page: 4294967295 };
    assert_eq!(e.message(), "Page not found: 4294967295".to_string());
}

#[test]
fn unknown_errors_carry_their_cause() {
    let e = PaginationError::Unknown { message: "connection reset".to_string() };
    assert_eq!(e.message(), "connection reset".to_string());
    let e = CreateExpenseError::Unknown { message: "connection reset".to_string() };
    assert_eq!(e.message(), "connection reset".to_string());
}

#[test]
fn duplicate_error_message_names_the_expense() {
    let e = CreateExpenseError::Duplicate { name: "Rent".to_string() };
    assert_eq!(e.message(), "expense with name Rent already exists".to_string());
}

#[test]
fn expense_equality_is_structural() {
    let a = Expense::new(7, ExpenseName::new("Rent").unwrap());
    let b = Expense::new(7, ExpenseName::new(" Rent ").unwrap());
    let c = Expense::new(8, ExpenseName::new("Rent").unwrap());
    assert!(a == b);
    assert!(a != c);
    assert_eq!(a.id(), 7);
    assert_eq!(a.name().as_str(), "Rent");
}
