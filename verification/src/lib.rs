//! Resource resolution and result materialization for a one-shot SQL client
//! that reaches a managed database cluster through a cloud data-plane API.
//!
//! The library selects exactly one cluster and one credential secret from
//! possibly ambiguous directory listings, and renders a variant-typed result
//! set into delimited text or order-preserving structured records.

pub mod csv_out;
pub mod data;
pub mod fields;
pub mod json_out;
pub mod project;
pub mod resolve;
pub mod text;

