//! What can go wrong before a plan reaches the executor.
use vstd::prelude::*;

verus! {

/// A field of a manifest entry that is missing or malformed.
#[derive(Clone, Copy, Debug, PartialEq, Eq, Structural)]
pub enum SchemaError {
    /// The entry has no `from`.
    MissingFrom,
    /// The entry has no `to`.
    MissingTo,
    /// The `chmod` literal has a digit that is no octal digit.
    InvalidChmod,
}

/// The contents of a file could not be had while planning its copy.
#[derive(Clone, Copy, Debug, PartialEq, Eq, Structural)]
pub enum ContentError {
    /// The template could not be rendered.
    Render,
    /// The manifest holds no source file of that name.
    Source,
}

/// No provider of the chain resolved a location.
#[derive(Clone, Copy, Debug, PartialEq, Eq, Structural)]
pub enum ManifestProviderError {
    /// The location was claimed by no provider, or the one that claimed it found
    /// nothing there.
    NoResolution,
}

/// No package provider can serve a request.
#[derive(Clone, Copy, Debug, PartialEq, Eq, Structural)]
pub enum ProviderError {
    /// The registry knows no provider of the requested name.
    Unknown,
    /// The provider is not installed and cannot install itself.
    Unavailable,
}

/// Why an action has no plan.
#[derive(Clone, Copy, Debug, PartialEq, Eq, Structural)]
pub enum PlanError {
    /// A file copy could not get its contents.
    Content(ContentError),
    /// A file copy is to write a path that has no directory above it.
    Destination,
    /// A package install found no provider.
    Provider(ProviderError),
}

} // verus!
