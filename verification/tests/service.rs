//! Tests of the orchestrating service against the in-memory repository:
//! the success, duplicate and failure paths, and the notification record.

use expense_service::email_client::EmailClient;
use expense_service::expense::{CreateExpenseError, CreateExpenseRequest, ListExpensesRequest};
use expense_service::ports::{ExpenseRepositoryError, FinanceService};
use expense_service::prometheus::Prometheus;
use expense_service::repository::{InMemoryRepository, ListBehavior};
use expense_service::service::Service;

fn fresh_service() -> Service<InMemoryRepository, Prometheus, EmailClient> {
    Service::new(InMemoryRepository::new(), Prometheus::new(), EmailClient::new())
}

#[test]
fn create_returns_the_stored_expense() {
    let mut service = fresh_service();
    service.repo.next_id = 42;
    let req = CreateExpenseRequest::new("Rent").unwrap();
    let expense = service.create_expense(&req).unwrap();
    assert_eq!(expense.id(), 42);
    assert_eq!(expense.name().as_str(), "Rent");
}

#[test]
fn create_notifies_exactly_the_new_expense() {
    let mut service = fresh_service();
    let req = CreateExpenseRequest::new("Rent").unwrap();
    let expense = service.create_expense(&req).unwrap();
    let sent = service.expense_notifier.sent();
    assert_eq!(sent.len(), 1);
    assert!(sent[0] == expense);
}

#[test]
fn duplicate_create_reports_the_name_and_notifies_nothing_more() {
    let mut service = fresh_service();
    let req = CreateExpenseRequest::new("Rent").unwrap();
    service.create_expense(&req).unwrap();
    let again = CreateExpenseRequest::new(" Rent ").unwrap();
    match service.create_expense(&again) {
        Err(CreateExpenseError::Duplicate { name }) => assert_eq!(name, "Rent".to_string()),
        other => panic!("expected Duplicate, got {:?}", other),
    }
    assert_eq!(service.expense_notifier.sent().len(), 1);
}

#[test]
fn failing_repository_reports_unknown_and_notifies_nothing() {
    let mut service = fresh_service();
    service.repo.fail_create = true;
    let req = CreateExpenseRequest::new("Rent").unwrap();
    match service.create_expense(&req) {
        Err(CreateExpenseError::Unknown { .. }) => {},
        other => panic!("expected Unknown, got {:?}", other),
    }
    assert_eq!(service.expense_notifier.sent().len(), 0);
}

#[test]
fn listing_an_empty_store_yields_nothing() {
    let mut service = fresh_service();
    let req = ListExpensesRequest::new(1, 10).unwrap();
    let listed = service.list_expenses(&req).unwrap();
    assert_eq!(listed.len(), 0);
}

#[test]
fn listing_returns_the_stored_expenses_in_order() {
    let mut service = fresh_service();
    for name in ["Rent", "Coffee", "Books"] {
        let req = CreateExpenseRequest::new(name).unwrap();
        service.create_expense(&req).unwrap();
    }
    let req = ListExpensesRequest::new(1, 10).unwrap();
    let listed = service.list_expenses(&req).unwrap();
    let names: Vec<&str> = listed.iter().map(|e| e.name().as_str()).collect();
    assert_eq!(names, vec!["Rent", "Coffee", "Books"]);
}

#[test]
fn list_failure_wraps_the_timeout_cause() {
    let mut service = fresh_service();
    service.repo.list_behavior = ListBehavior::Timeout;
    let req = ListExpensesRequest::new(1, 10).unwrap();
    let err = service.list_expenses(&req).unwrap_err();
    assert!(matches!(err.cause, ExpenseRepositoryError::Timeout));
    assert_eq!(err.message(), "Failed to list expenses: Repository Timed out".to_string());
}

#[test]
fn list_failure_wraps_the_unknown_cause() {
    let mut service = fresh_service();
    service.repo.list_behavior = ListBehavior::Unknown;
    let req = ListExpensesRequest::new(1, 10).unwrap();
    let err = service.list_expenses(&req).unwrap_err();
    assert!(matches!(err.cause, ExpenseRepositoryError::Unknown { .. }));
}

#[test]
fn distinct_names_all_succeed_with_one_notification_each() {
    let mut service = fresh_service();
    let names = ["Rent", "Coffee", "Books", "Travel", "Tools"];
    let mut created = Vec::new();
    for name in names {
        let req = CreateExpenseRequest::new(name).unwrap();
        created.push(service.create_expense(&req).unwrap());
    }
    let sent = service.expense_notifier.sent();
    assert_eq!(sent.len(), names.len());
    for expense in &created {
        let hits = sent.iter().filter(|s| *s == expense).count();
        assert_eq!(hits, 1);
    }
}
