//! A catalog store for physical-collection records.
//!
//! The library keeps `Item` records in an embedded SQLite table and offers
//! listing, multi-criteria filtering, partial field updates, soft deletion
//! and flat-file export.  The heart of the crate is the filter-to-query
//! compiler and the partial-update coercion engine: both turn loosely shaped
//! caller input into typed, parameterized store operations, and both carry
//! proofs of what they produce.

pub mod text;
pub mod dates;
pub mod money;
pub mod models;
pub mod errors;
pub mod row;
pub mod filter;
pub mod fields;
pub mod store;
pub mod catalog;
pub mod csv_out;

pub use catalog::Catalog;
pub use csv_out::export_to_csv_string;
pub use dates::Date;
pub use errors::CatalogError;
pub use models::{Item, ItemAction, ItemCategory, ItemFilter};

