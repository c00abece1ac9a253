//! Tests of the adapter-side pieces: the in-memory repository, the
//! decision rules a SQL-backed adapter applies, and the identifier
//! rendering.

use expense_service::expense::{CreateExpenseError, CreateExpenseRequest, ExpenseName};
use expense_service::ids::uuid_string;
use expense_service::ports::ExpenseRepository;
use expense_service::repository::{
    expense_from_record, is_unique_constraint_violation, map_save_error, InMemoryRepository,
};

#[test]
fn identifiers_are_assigned_in_sequence() {
    let mut repo = InMemoryRepository::new();
    let mut ids = Vec::new();
    for name in ["Rent", "Coffee", "Books"] {
        let req = CreateExpenseRequest::new(name).unwrap();
        ids.push(repo.create_expense(&req).unwrap().id());
    }
    assert_eq!(ids, vec![1, 2, 3]);
}

#[test]
fn repository_detects_duplicates_after_trimming() {
    let mut repo = InMemoryRepository::new();
    let req = CreateExpenseRequest::new("Rent").unwrap();
    repo.create_expense(&req).unwrap();
    let padded = CreateExpenseRequest::new("\u{3000}Rent ").unwrap();
    assert!(matches!(
        repo.create_expense(&padded),
        Err(CreateExpenseError::Duplicate { .. })
    ));
}

#[test]
fn unique_constraint_code_is_recognised() {
    assert!(is_unique_constraint_violation(Some("2067")));
    assert!(!is_unique_constraint_violation(Some("42")));
    assert!(!is_unique_constraint_violation(Some("")));
    assert!(!is_unique_constraint_violation(None));
}

#[test]
fn save_errors_map_to_the_documented_kinds() {
    let name = ExpenseName::new("Rent").unwrap();
    match map_save_error(true, &name) {
        CreateExpenseError::Duplicate { name } => assert_eq!(name, "Rent".to_string()),
        other => panic!("expected Duplicate, got {:?}", other),
    }
    match map_save_error(false, &name) {
        CreateExpenseError::Unknown { message } => {
            assert_eq!(message, "failed to save expense with name Rent".to_string())
        },
        other => panic!("expected Unknown, got {:?}", other),
    }
}

#[test]
fn stored_rows_decode_through_the_validation_gate() {
    let e = expense_from_record(7, " Rent ").unwrap();
    assert_eq!(e.id(), 7);
    assert_eq!(e.name().as_str(), "Rent");
    assert!(expense_from_record(8, " \t ").is_err());
}

#[test]
fn identifier_rendering_covers_the_digit_range() {
    assert_eq!(uuid_string(0), "00000000-0000-0000-0000-000000000000".to_string());
    assert_eq!(uuid_string(u128::MAX), "ffffffff-ffff-ffff-ffff-ffffffffffff".to_string());
    assert_eq!(
        uuid_string(0x0123456789abcdef0011223344556677),
        "01234567-89ab-cdef-0011-223344556677".to_string()
    );
}
