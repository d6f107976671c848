//! Packages a directory archive into an OCI image layout: content-addressed
//! blobs, the config / manifest / index documents, and the checks that gate
//! every write.

pub mod digest;
pub mod ghcr;
pub mod json;
pub mod oci;

pub use ghcr::Ghcr;
