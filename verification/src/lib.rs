//! Personal financial records: a typed domain model for recurring income,
//! expenses and debts, a repository that maps records to and from a SQLite
//! table, and a service layer that validates input and assigns identity.

pub mod db;
pub mod errors;
pub mod models;
pub mod record_repository;
pub mod service;
