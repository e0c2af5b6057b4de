//! The registry: the providers that a machine may have, in the order in which
//! they are preferred, and the choice of the one that serves a request.
use crate::actions::package::providers::PackageProvider;
use crate::actions::package::{
    plan_install_given, plan_or_error, provider_outcome, PackageVariant, PackageVariantView,
};
use crate::atoms::{text_of, Atom, AtomView};
use crate::errors::ProviderError;
use vstd::prelude::*;

verus! {

/// Whether the provider at `i` is the first of the registry called `name`.
pub open spec fn first_called(
    registry: Seq<Box<dyn PackageProvider>>,
    name: Seq<char>,
    i: int,
) -> bool {
    &&& 0 <= i < registry.len()
    &&& registry[i].label() == name
    &&& forall|j: int| 0 <= j < i ==> (#[trigger] registry[j]).label() != name
}

/// Whether the provider at `i` was found available. A provider that `available`
/// has no answer for counts as not available.
pub open spec fn answered(available: Seq<bool>, i: int) -> bool {
    0 <= i < available.len() && available[i]
}

/// Whether the provider at `i` is the first of `n` that is available.
pub open spec fn first_available(n: int, available: Seq<bool>, i: int) -> bool {
    &&& 0 <= i < n
    &&& answered(available, i)
    &&& forall|j: int| 0 <= j < i ==> !#[trigger] answered(available, j)
}

/// Whether the provider at `i` is the first that can install itself.
pub open spec fn first_bootstrappable(registry: Seq<Box<dyn PackageProvider>>, i: int) -> bool {
    &&& 0 <= i < registry.len()
    &&& registry[i].bootstrap_plan().len() > 0
    &&& forall|j: int| 0 <= j < i ==> (#[trigger] registry[j]).bootstrap_plan().len() == 0
}

/// Whether the provider at `i` serves a request. A request that names its
/// provider is served by the first provider of that name, if that one is
/// available or can install itself. Any other request is served by the first
/// available provider, and where none is available by the first that can install
/// itself.
pub open spec fn serves(
    registry: Seq<Box<dyn PackageProvider>>,
    requested: Option<Seq<char>>,
    available: Seq<bool>,
    i: int,
) -> bool {
    match requested {
        Some(name) => first_called(registry, name, i) && (answered(available, i)
            || registry[i].bootstrap_plan().len() > 0),
        None => first_available(registry.len() as int, available, i) || ((forall|j: int|
            0 <= j < registry.len() ==> !#[trigger] answered(available, j))
            && first_bootstrappable(registry, i)),
    }
}

/// The provider that serves a request, by its place in the registry, or the
/// reason why none does: `Unknown` where the request names a provider that the
/// registry does not hold, `Unavailable` where the one it comes to is neither
/// available nor able to install itself.
pub open spec fn selection(
    registry: Seq<Box<dyn PackageProvider>>,
    requested: Option<Seq<char>>,
    available: Seq<bool>,
) -> Result<int, ProviderError> {
    if exists|i: int| serves(registry, requested, available, i) {
        Ok(choose|i: int| serves(registry, requested, available, i))
    } else if requested is Some && forall|i: int|
        0 <= i < registry.len() ==> (#[trigger] registry[i]).label() != requested->0 {
        Err(ProviderError::Unknown)
    } else {
        Err(ProviderError::Unavailable)
    }
}

/// At most one provider serves a request.
pub proof fn lemma_serves_once(
    registry: Seq<Box<dyn PackageProvider>>,
    requested: Option<Seq<char>>,
    available: Seq<bool>,
    i: int,
    k: int,
)
    requires
        serves(registry, requested, available, i),
        serves(registry, requested, available, k),
    ensures
        i == k,
{
    match requested {
        Some(name) => {
            if i < k {
                assert(registry[i].label() != name);
            } else if k < i {
                assert(registry[k].label() != name);
            }
        },
        None => {
            let n = registry.len() as int;
            if first_available(n, available, i) || first_available(n, available, k) {
                if i < k {
                    assert(!answered(available, i));
                } else if k < i {
                    assert(!answered(available, k));
                }
            } else {
                if i < k {
                    assert(registry[i].bootstrap_plan().len() == 0);
                } else if k < i {
                    assert(registry[k].bootstrap_plan().len() == 0);
                }
            }
        },
    }
}

/// Where the provider at `i` serves a request, the selection is `i`.
pub proof fn lemma_selection_is(
    registry: Seq<Box<dyn PackageProvider>>,
    requested: Option<Seq<char>>,
    available: Seq<bool>,
    i: int,
)
    requires
        serves(registry, requested, available, i),
    ensures
        selection(registry, requested, available) == Ok::<int, ProviderError>(i),
{
    let k = choose|k: int| serves(registry, requested, available, k);
    lemma_serves_once(registry, requested, available, i, k);
}

/// The place of a provider as contracts speak of it.
pub open spec fn place(selected: Result<usize, ProviderError>) -> Result<int, ProviderError> {
    match selected {
        Ok(i) => Ok(i as int),
        Err(error) => Err(error),
    }
}

/// Whether the providers of the registry may give these answers when each is
/// asked whether it is installed.
pub open spec fn may_be_available(
    registry: Seq<Box<dyn PackageProvider>>,
    available: Seq<bool>,
) -> bool {
    &&& available.len() == registry.len()
    &&& forall|i: int|
        0 <= i < registry.len() ==> (#[trigger] registry[i]).may_be_available(available[i])
}

/// Asks each provider of the registry whether it is available.
pub fn probe(registry: &Vec<Box<dyn PackageProvider>>) -> (available: Vec<bool>)
    ensures
        may_be_available(registry@, available@),
{
    let mut available: Vec<bool> = Vec::new();
    let mut i: usize = 0;
    while i < registry.len()
        invariant
            i <= registry.len(),
            available.len() == i,
            forall|j: int|
                0 <= j < i ==> (#[trigger] registry@[j]).may_be_available(available@[j]),
        decreases registry.len() - i,
    {
        available.push(registry[i].available());
        i = i + 1;
    }
    available
}

/// Whether the provider at `i` was found available.
pub fn is_available(available: &Vec<bool>, i: usize) -> (found: bool)
    ensures
        found == answered(available@, i as int),
{
    i < available.len() && available[i]
}

/// Selects the provider that serves a request, given which providers of the
/// registry are available: `available[i]` is the answer of the provider at `i`.
pub fn select(
    registry: &Vec<Box<dyn PackageProvider>>,
    requested: &Option<String>,
    available: &Vec<bool>,
) -> (selected: Result<usize, ProviderError>)
    ensures
        place(selected) == selection(registry@, text_of(*requested), available@),
        selected matches Ok(i) ==> i < registry.len(),
{
    match requested {
        Some(name) => {
            let mut i: usize = 0;
            while i < registry.len()
                invariant
                    i <= registry.len(),
                    *requested == Some(*name),
                    forall|j: int| 0 <= j < i ==> (#[trigger] registry@[j]).label() != name@,
                decreases registry.len() - i,
            {
                if registry[i].name().to_owned() == *name {
                    if is_available(available, i) || registry[i].bootstrap().len() > 0 {
                        proof {
                            lemma_selection_is(registry@, Some(name@), available@, i as int);
                        }
                        return Ok(i);
                    } else {
                        assert forall|k: int| !serves(registry@, Some(name@), available@, k) by {
                            if first_called(registry@, name@, k) {
                                if k < i {
                                    assert(registry@[k].label() != name@);
                                } else if i < k {
                                    assert(registry@[i as int].label() != name@);
                                }
                            }
                        }
                        return Err(ProviderError::Unavailable);
                    }
                }
                i = i + 1;
            }
            Err(ProviderError::Unknown)
        },
        None => {
            let mut i: usize = 0;
            while i < registry.len()
                invariant
                    i <= registry.len(),
                    *requested is None,
                    forall|j: int| 0 <= j < i ==> !#[trigger] answered(available@, j),
                decreases registry.len() - i,
            {
                if is_available(available, i) {
                    proof {
                        lemma_selection_is(registry@, None, available@, i as int);
                    }
                    return Ok(i);
                }
                i = i + 1;
            }
            let mut i: usize = 0;
            while i < registry.len()
                invariant
                    i <= registry.len(),
                    *requested is None,
                    forall|j: int| 0 <= j < registry.len() ==> !#[trigger] answered(available@, j),
                    forall|j: int|
                        0 <= j < i ==> (#[trigger] registry@[j]).bootstrap_plan().len() == 0,
                decreases registry.len() - i,
            {
                if registry[i].bootstrap().len() > 0 {
                    proof {
                        lemma_selection_is(registry@, None, available@, i as int);
                    }
                    return Ok(i);
                }
                i = i + 1;
            }
            Err(ProviderError::Unavailable)
        },
    }
}

/// Whether the provider that serves `package` may say so of the repository that
/// the request needs. Where no provider serves it, nobody is asked.
pub open spec fn may_have_repository(
    registry: Seq<Box<dyn PackageProvider>>,
    package: PackageVariantView,
    available: Seq<bool>,
    has_repository: bool,
) -> bool {
    selection(registry, package.provider, available) matches Ok(i) ==> registry[i].may_have_repository(
        package,
        has_repository,
    )
}

/// What installing `package` comes to on a machine that gave these answers: the
/// plan through the provider that serves the request, or the reason why there is
/// none.
pub open spec fn package_outcome(
    registry: Seq<Box<dyn PackageProvider>>,
    package: PackageVariantView,
    available: Seq<bool>,
    has_repository: bool,
) -> Result<Seq<AtomView>, ProviderError> {
    match selection(registry, package.provider, available) {
        Ok(i) => provider_outcome(
            &*registry[i],
            package,
            answered(available, i),
            has_repository,
        ),
        Err(error) => Err(error),
    }
}

/// The provider that serves a request can install: it is one of the registry,
/// it is available or can install itself, and its plan exists. A request fails
/// only where no provider serves it.
pub proof fn selected_provider_installs(
    registry: Seq<Box<dyn PackageProvider>>,
    package: PackageVariantView,
    available: Seq<bool>,
    has_repository: bool,
)
    ensures
        match selection(registry, package.provider, available) {
            Ok(i) => {
                &&& 0 <= i < registry.len()
                &&& answered(available, i) || registry[i].bootstrap_plan().len() > 0
                &&& package_outcome(registry, package, available, has_repository) is Ok
            },
            Err(error) => package_outcome(registry, package, available, has_repository) == Err::<
                Seq<AtomView>,
                ProviderError,
            >(error),
        },
{
    if exists|i: int| serves(registry, package.provider, available, i) {
        let i = choose|i: int| serves(registry, package.provider, available, i);
        assert(serves(registry, package.provider, available, i));
    }
}

/// Plans the install of `package`, given which providers of the registry are
/// available.
pub fn plan_package_given(
    registry: &Vec<Box<dyn PackageProvider>>,
    package: &PackageVariant,
    available: &Vec<bool>,
) -> (plan: Result<Vec<Atom>, ProviderError>)
    ensures
        exists|has_repository: bool|
            {
                &&& may_have_repository(registry@, package@, available@, has_repository)
                &&& plan_or_error(plan) == #[trigger] package_outcome(
                    registry@,
                    package@,
                    available@,
                    has_repository,
                )
            },
{
    match select(registry, &package.provider, available) {
        Ok(i) => {
            let has_repository = registry[i].has_repository(package);
            let plan = plan_install_given(
                &*registry[i],
                package,
                is_available(available, i),
                has_repository,
            );
            assert(plan_or_error(plan) == package_outcome(
                registry@,
                package@,
                available@,
                has_repository,
            ));
            plan
        },
        Err(error) => {
            assert(plan_or_error(Err(error)) == package_outcome(
                registry@,
                package@,
                available@,
                true,
            ));
            Err(error)
        },
    }
}

/// Whether planning the install of `package` may end in `outcome`: on a machine
/// that gives answers which the providers may give, the outcome is what those
/// answers come to.
pub open spec fn planned(
    registry: Seq<Box<dyn PackageProvider>>,
    package: PackageVariantView,
    outcome: Result<Seq<AtomView>, ProviderError>,
) -> bool {
    exists|available: Seq<bool>, has_repository: bool|
        {
            &&& may_be_available(registry, available)
            &&& may_have_repository(registry, package, available, has_repository)
            &&& outcome == #[trigger] package_outcome(
                registry,
                package,
                available,
                has_repository,
            )
        }
}

/// Plans the install of `package` through the provider of the registry that
/// serves it: asks every provider whether it is available, selects, and plans.
pub fn plan_package(registry: &Vec<Box<dyn PackageProvider>>, package: &PackageVariant) -> (plan:
    Result<Vec<Atom>, ProviderError>)
    ensures
        planned(registry@, package@, plan_or_error(plan)),
{
    let available = probe(registry);
    plan_package_given(registry, package, &available)
}

} // verus!
