//! A contacts directory: validated name / email / phone records kept by a
//! pluggable storage backend, with create, read, paginated listing, update and
//! delete operations.

pub mod backend;
pub mod contact_error;
pub mod decimal;
pub mod domain;
pub mod handlers;
pub mod laws;
pub mod memory;
pub mod model;
pub mod service;
pub mod sql;
pub mod text;
pub mod validator;
