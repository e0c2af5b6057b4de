//! Planning for declarative machine provisioning.
//!
//! A manifest declares actions: files to place, packages to install. This
//! library turns each action into an ordered plan of atoms, the primitive
//! operations that an executor runs later, chooses the package provider that
//! serves an install request, and resolves the location of a manifest through an
//! ordered chain of providers.
pub mod actions;
pub mod atoms;
pub mod errors;
pub mod manifests;
pub mod outside;
