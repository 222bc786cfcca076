//! The decisions behind each HTTP route.

pub mod internal;
pub mod namespaces;
pub mod oca_bundles;
pub mod objects;
