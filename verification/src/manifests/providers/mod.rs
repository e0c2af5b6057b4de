//! Manifest providers: the strategies that turn a location into a path, and the
//! chain that tries them in order.
use vstd::prelude::*;

pub use crate::errors::ManifestProviderError;

pub mod local;

verus! {

/// A strategy that resolves the locations it is familiar with. Familiarity is a
/// test on the text of the location alone; a provider that is familiar with a
/// location may still fail to resolve it.
///
/// An implementation that leaves `familiar` at its default leaves its test
/// unspecified, and nothing can be concluded of it.
pub trait ManifestProvider {
    /// Whether `path` is an answer that the provider may give for `url`. What a
    /// location resolves to is mostly a fact of the machine, so by default every
    /// answer may be given.
    open spec fn may_resolve(
        &self,
        url: Seq<char>,
        path: Result<std::path::PathBuf, ManifestProviderError>,
    ) -> bool {
        true
    }

    /// Whether the provider claims `url`.
    open spec fn familiar(&self, url: Seq<char>) -> bool {
        arbitrary()
    }

    /// Whether the provider claims `url`: a cheap look at the text.
    fn looks_familiar(&self, url: &String) -> (familiar: bool)
        ensures
            familiar == self.familiar(url@),
    ;

    /// The path that `url` stands for, if there is one.
    fn resolve(&self, url: &String) -> (path: Result<std::path::PathBuf, ManifestProviderError>)
        ensures
            self.may_resolve(url@, path),
    ;
}

/// Whether the provider at `i` is the first of the chain that claims `url`.
pub open spec fn first_familiar(
    chain: Seq<Box<dyn ManifestProvider>>,
    url: Seq<char>,
    i: int,
) -> bool {
    &&& 0 <= i < chain.len()
    &&& chain[i].familiar(url)
    &&& forall|j: int| 0 <= j < i ==> !(#[trigger] chain[j]).familiar(url)
}

/// The place of the provider that resolves `url`: the first that claims it.
pub open spec fn claimant(chain: Seq<Box<dyn ManifestProvider>>, url: Seq<char>) -> Option<int> {
    if exists|i: int| first_familiar(chain, url, i) {
        Some(choose|i: int| first_familiar(chain, url, i))
    } else {
        None
    }
}

/// Whether the provider at `i` claims every location.
pub open spec fn claims_all(chain: Seq<Box<dyn ManifestProvider>>, i: int) -> bool {
    forall|url: Seq<char>| (#[trigger] chain[i].familiar(url))
}

/// Where the provider at `i` is the first to claim `url`, it is the claimant.
pub proof fn lemma_claimant_is(chain: Seq<Box<dyn ManifestProvider>>, url: Seq<char>, i: int)
    requires
        first_familiar(chain, url, i),
    ensures
        claimant(chain, url) == Some(i),
{
    let k = choose|k: int| first_familiar(chain, url, k);
    if i < k {
        assert(!chain[i].familiar(url));
    } else if k < i {
        assert(!chain[k].familiar(url));
    }
}

/// Where some provider before `n` claims `url`, one of them is the first to.
pub proof fn lemma_some_claim_is_first(chain: Seq<Box<dyn ManifestProvider>>, url: Seq<char>, n: int)
    requires
        0 <= n <= chain.len(),
        exists|i: int| 0 <= i < n && (#[trigger] chain[i]).familiar(url),
    ensures
        exists|i: int| 0 <= i < n && first_familiar(chain, url, i),
    decreases n,
{
    if exists|i: int| 0 <= i < n - 1 && (#[trigger] chain[i]).familiar(url) {
        lemma_some_claim_is_first(chain, url, n - 1);
    } else {
        assert(first_familiar(chain, url, n - 1));
    }
}

/// A chain that holds a provider which claims every location resolves every
/// location through that provider or one before it: no location falls through,
/// and no provider behind it is ever reached.
pub proof fn fallback_catches_every_location(
    chain: Seq<Box<dyn ManifestProvider>>,
    fallback: int,
    url: Seq<char>,
)
    requires
        0 <= fallback < chain.len(),
        claims_all(chain, fallback),
    ensures
        claimant(chain, url) matches Some(i) && 0 <= i <= fallback,
{
    assert(chain[fallback].familiar(url));
    lemma_some_claim_is_first(chain, url, fallback + 1);
    let i = choose|i: int| 0 <= i < fallback + 1 && first_familiar(chain, url, i);
    lemma_claimant_is(chain, url, i);
}

/// The place of a provider as contracts speak of it.
pub open spec fn place(found: Option<usize>) -> Option<int> {
    match found {
        Some(i) => Some(i as int),
        None => None,
    }
}

/// Finds the provider that resolves `url`: the first of the chain that claims
/// it.
pub fn find_familiar(chain: &Vec<Box<dyn ManifestProvider>>, url: &String) -> (found: Option<usize>)
    ensures
        place(found) == claimant(chain@, url@),
        found matches Some(i) ==> i < chain.len(),
{
    let mut i: usize = 0;
    while i < chain.len()
        invariant
            i <= chain.len(),
            forall|j: int| 0 <= j < i ==> !(#[trigger] chain@[j]).familiar(url@),
        decreases chain.len() - i,
    {
        if chain[i].looks_familiar(url) {
            proof {
                lemma_claimant_is(chain@, url@, i as int);
            }
            return Some(i);
        }
        i = i + 1;
    }
    None
}

/// Resolves `url` through the chain: the first provider that claims it resolves
/// it, and what that provider answers is the answer. A location that no provider
/// claims has no resolution.
pub fn resolve(chain: &Vec<Box<dyn ManifestProvider>>, url: &String) -> (path: Result<
    std::path::PathBuf,
    ManifestProviderError,
>)
    ensures
        match claimant(chain@, url@) {
            Some(i) => chain@[i].may_resolve(url@, path),
            None => path == Err::<std::path::PathBuf, ManifestProviderError>(
                ManifestProviderError::NoResolution,
            ),
        },
{
    match find_familiar(chain, url) {
        Some(i) => chain[i].resolve(url),
        None => Err(ManifestProviderError::NoResolution),
    }
}

} // verus!
