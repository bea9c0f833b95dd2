//! Credential and session lifecycle of a student portal: password hashing,
//! signed session tokens with renewal, and the account verification and
//! password reset flows over a credential store.

pub mod auth;
pub mod config;
pub mod dtos;
pub mod errors;
pub mod file_storage;
pub mod generic;
pub mod images;
pub mod models;
pub mod password;
pub mod responses;
pub mod session;
pub mod sources;
pub mod store;
pub mod text;
pub mod token;
pub mod user_service;
