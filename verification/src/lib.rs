//! Registry of icon element types for the Macintosh ICNS container format,
//! and the bidirectional mapping between those types and the four-byte
//! OSType tag codes that identify elements inside a container.

pub mod icontype;

pub use icontype::IconType;
pub use icontype::OSType;
