//! The OCI image documents, their schemas, and the on-disk layout.
pub mod image;
pub mod schema;
