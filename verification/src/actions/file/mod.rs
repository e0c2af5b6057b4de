//! Actions on files.
pub mod copy;
