//! Manifests on the local file system.
use crate::manifests::providers::{ManifestProvider, ManifestProviderError};
use crate::outside::canonical_path;
use vstd::prelude::*;

verus! {

/// Resolves a location as a path of the local file system. It is the last
/// chance of a chain: it claims every location.
#[derive(Debug)]
pub struct LocalManifestProvider;

/// What looking a path up comes to: the canonical path where the file system has
/// one, no resolution otherwise, whatever the reason.
pub fn resolution(canonical: Result<std::path::PathBuf, std::io::Error>) -> (path: Result<
    std::path::PathBuf,
    ManifestProviderError,
>)
    ensures
        path == match canonical {
            Ok(found) => Ok::<std::path::PathBuf, ManifestProviderError>(found),
            Err(_) => Err::<std::path::PathBuf, ManifestProviderError>(
                ManifestProviderError::NoResolution,
            ),
        },
{
    match canonical {
        Ok(found) => Ok(found),
        Err(_) => Err(ManifestProviderError::NoResolution),
    }
}

impl ManifestProvider for LocalManifestProvider {
    open spec fn familiar(&self, url: Seq<char>) -> bool {
        true
    }

    fn looks_familiar(&self, _url: &String) -> (familiar: bool) {
        true
    }

    /// The canonical form of `url` read as a path, absolute or relative to the
    /// directory the process runs in.
    fn resolve(&self, url: &String) -> (path: Result<std::path::PathBuf, ManifestProviderError>) {
        resolution(canonical_path(url.as_str()))
    }
}

} // verus!
