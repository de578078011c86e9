//! Core of a small resource manager: five single-row operations on an
//! `items` table, reached over HTTP.
//!
//! The verified core is the request-to-persistence mapping:
//! - [`models`]: the `Item` entity and the create/update request shape;
//! - [`errors`]: the failure taxonomy of the repository layer;
//! - [`plan`]: the five parameterized statements, with fixed text and
//!   verbatim bound values;
//! - [`table`]: the per-statement semantics of the `items` table, as an
//!   executable model that the repository contract is stated against;
//! - [`router`]: the outcome-to-status mapping and the five handlers;
//! - [`laws`]: service-level properties proved over the same semantics.
//!
//! Process bootstrap, the HTTP runtime and the live connection pool are
//! collaborators outside the core and stay outside this library.

pub mod errors;
pub mod laws;
pub mod models;
pub mod plan;
pub mod router;
pub mod table;
