//! Core of an expense-tracking service, laid out as a hexagonal architecture:
//! a validated domain model, capability ports for persistence, metrics and
//! notification, and an orchestrating service that composes one adapter of
//! each port with fixed error propagation and side-effect ordering.

pub mod api_error;
pub mod api_success;
pub mod email_client;
pub mod expense;
pub mod handlers;
pub mod ids;
pub mod ports;
pub mod prometheus;
pub mod repository;
pub mod server;
pub mod service;
pub mod text;
