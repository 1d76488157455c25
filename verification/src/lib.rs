//! Persistence and validation core of a small to-do / user service.
//!
//! The crate models the layer that sits between an HTTP surface and a
//! relational store: a bounded connection pool, field-level input
//! validation, CRUD and search over to-do rows, minimal user records with
//! a password-free read projection, and the fixed mapping from internal
//! outcomes to `{status, message}` pairs at the boundary.

pub mod dates;
pub mod errors;
pub mod pool;
pub mod store;
pub mod text;
pub mod todos;
pub mod user;
pub mod validation;
