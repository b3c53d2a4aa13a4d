pub mod api;
pub mod auth;
pub mod authenticator;
pub mod categories;
pub mod common;
pub mod common_guard;
pub mod data_processing;
pub mod database;
pub mod dto;
pub mod error;
pub mod error_handler;
pub mod helpers;
pub mod json;
pub mod json_error;
pub mod permission;
pub mod permission_guard;
pub mod query_parameter;
pub mod serde;
pub mod services;
pub mod sse;
pub mod text;
pub mod token;
pub mod user;
