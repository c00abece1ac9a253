//! Tests of the endpoint handlers: the two success paths as the HTTP
//! layer observes them, the rejection paths, and the identifier
//! rendering.

use expense_service::api_error::ApiError;
use expense_service::api_success::{ApiSuccess, STATUS_CREATED, STATUS_OK};
use expense_service::email_client::EmailClient;
use expense_service::handlers::{
    create_expense, list_expenses, CreateExpenseHttpRequestBody, CreateExpenseResponseData,
    ListItemsResponseData, PaginationRequestQueryParams,
};
use expense_service::prometheus::Prometheus;
use expense_service::repository::{InMemoryRepository, ListBehavior};
use expense_service::service::Service;

fn fresh_service() -> Service<InMemoryRepository, Prometheus, EmailClient> {
    Service::new(InMemoryRepository::new(), Prometheus::new(), EmailClient::new())
}

#[test]
fn test_create_expense_success() {
    let mut service = fresh_service();
    service.repo.next_id = 0x00112233445566778899aabbccddeeff;
    let body = CreateExpenseHttpRequestBody { name: "Angus".to_string() };
    let expected = ApiSuccess::new(
        STATUS_CREATED,
        CreateExpenseResponseData { id: "00112233-4455-6677-8899-aabbccddeeff".to_string() },
    );

    let actual = create_expense(&mut service, body);
    assert!(actual.is_ok(), "expected create_expense to succeed, but got {:?}", actual);

    let actual = actual.unwrap();
    assert_eq!(actual, expected, "expected ApiSuccess {:?}, but got {:?}", expected, actual)
}

#[test]
fn test_list_expenses_success() {
    let mut service = fresh_service();
    let query = PaginationRequestQueryParams { page: Some(1), size: Some(10) };
    let expected = ApiSuccess::new(STATUS_OK, ListItemsResponseData::new(vec![]));

    let actual = list_expenses(&mut service, query);
    assert!(actual.is_ok(), "expected list_expenses to succeed, but got {:?}", actual);

    let actual = actual.unwrap();
    assert_eq!(actual, expected, "expected ApiSuccess {:?}, but got {:?}", expected, actual)
}

#[test]
fn create_rejects_an_empty_name() {
    let mut service = fresh_service();
    let body = CreateExpenseHttpRequestBody { name: "  \t ".to_string() };
    let err = create_expense(&mut service, body).unwrap_err();
    assert_eq!(err, ApiError::UnprocessableEntity("expense name cannot be empty".to_string()));
}

#[test]
fn create_rejects_a_duplicate_name() {
    let mut service = fresh_service();
    let body = CreateExpenseHttpRequestBody { name: "Rent".to_string() };
    create_expense(&mut service, body).unwrap();
    let again = CreateExpenseHttpRequestBody { name: " Rent ".to_string() };
    let err = create_expense(&mut service, again).unwrap_err();
    assert_eq!(
        err,
        ApiError::UnprocessableEntity("expense with name Rent already exists".to_string())
    );
}

#[test]
fn create_hides_unknown_failures() {
    let mut service = fresh_service();
    service.repo.fail_create = true;
    let body = CreateExpenseHttpRequestBody { name: "Rent".to_string() };
    let err = create_expense(&mut service, body).unwrap_err();
    assert_eq!(err, ApiError::InternalServerError("Internal server error".to_string()));
}

#[test]
fn list_rejects_a_zero_page() {
    let mut service = fresh_service();
    let query = PaginationRequestQueryParams { page: Some(0), size: None };
    let err = list_expenses(&mut service, query).unwrap_err();
    assert_eq!(err, ApiError::UnprocessableEntity("Invalid page 0 or size 10".to_string()));
}

#[test]
fn list_defaults_page_and_size() {
    let mut service = fresh_service();
    let query = PaginationRequestQueryParams { page: None, size: None };
    assert!(list_expenses(&mut service, query).is_ok());
}

#[test]
fn list_reports_the_wrapped_failure() {
    let mut service = fresh_service();
    service.repo.list_behavior = ListBehavior::Timeout;
    let query = PaginationRequestQueryParams { page: Some(1), size: Some(10) };
    let err = list_expenses(&mut service, query).unwrap_err();
    assert_eq!(
        err,
        ApiError::InternalServerError("Failed to list expenses: Repository Timed out".to_string())
    );
}

#[test]
fn errors_render_as_status_and_body() {
    let e = ApiError::UnprocessableEntity("expense name cannot be empty".to_string());
    let (status, body) = e.into_response_parts();
    assert_eq!(status, 422);
    assert_eq!(body.status_code, 422);
    assert_eq!(body.data, "expense name cannot be empty".to_string());

    let e = ApiError::InternalServerError("connection reset".to_string());
    let (status, body) = e.into_response_parts();
    assert_eq!(status, 500);
    assert_eq!(body.status_code, 500);
    assert_eq!(body.data, "Internal server error".to_string());
}

#[test]
fn listed_items_render_id_and_name() {
    let mut service = fresh_service();
    service.repo.next_id = 42;
    let body = CreateExpenseHttpRequestBody { name: "Rent".to_string() };
    create_expense(&mut service, body).unwrap();
    let query = PaginationRequestQueryParams { page: Some(1), size: Some(10) };
    let listed = list_expenses(&mut service, query).unwrap();
    assert_eq!(listed.0, STATUS_OK);
    let items = &listed.1.data.items;
    assert_eq!(items.len(), 1);
    assert_eq!(items[0].id, "00000000-0000-0000-0000-00000000002a".to_string());
    assert_eq!(items[0].name, "Rent".to_string());
}
