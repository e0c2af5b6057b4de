//! Installing packages through whichever provider the machine has.
use crate::actions::package::providers::PackageProvider;
use crate::atoms::{append_atoms, append_copies, text_of, Atom, AtomView};
use crate::errors::ProviderError;
use vstd::prelude::*;

pub mod providers;
pub mod registry;

verus! {

/// A request to install packages.
#[derive(Clone, Debug, PartialEq)]
pub struct PackageVariant {
    /// The packages to install, in the order in which they were declared.
    pub packages: Vec<String>,
    /// Arguments that the provider's install command gets besides its own.
    pub extra_args: Vec<String>,
    /// The provider to use, by name; the first available one where none is named.
    pub provider: Option<String>,
}

/// A request as contracts speak of it.
pub struct PackageVariantView {
    pub packages: Seq<Seq<char>>,
    pub extra_args: Seq<Seq<char>>,
    pub provider: Option<Seq<char>>,
}

impl DeepView for PackageVariant {
    type V = PackageVariantView;

    open spec fn deep_view(&self) -> PackageVariantView {
        PackageVariantView {
            packages: self.packages.deep_view(),
            extra_args: self.extra_args.deep_view(),
            provider: text_of(self.provider),
        }
    }
}

impl View for PackageVariant {
    type V = PackageVariantView;

    open spec fn view(&self) -> PackageVariantView {
        self.deep_view()
    }
}

impl PackageVariant {
    /// The packages of the request.
    pub fn packages(&self) -> (names: Vec<String>)
        ensures
            names.deep_view() == self@.packages,
    {
        let mut names: Vec<String> = Vec::new();
        append_copies(&mut names, &self.packages);
        names
    }
}

/// A plan or the reason why there is none, as contracts speak of it.
pub open spec fn plan_or_error(outcome: Result<Vec<Atom>, ProviderError>) -> Result<
    Seq<AtomView>,
    ProviderError,
> {
    match outcome {
        Ok(plan) => Ok(plan.deep_view()),
        Err(error) => Err(error),
    }
}

/// What installing through one provider comes to. A provider that is not
/// available installs itself first, and the request fails where it cannot. A
/// repository that the provider lacks is registered next. The install itself
/// comes last.
pub open spec fn install_outcome(
    bootstrap: Seq<AtomView>,
    repository: Seq<AtomView>,
    install: Seq<AtomView>,
    available: bool,
    has_repository: bool,
) -> Result<Seq<AtomView>, ProviderError> {
    if !available && bootstrap.len() == 0 {
        Err(ProviderError::Unavailable)
    } else {
        Ok(
            (if available {
                Seq::empty()
            } else {
                bootstrap
            }) + (if has_repository {
                Seq::empty()
            } else {
                repository
            }) + install,
        )
    }
}

/// No plan installs through a provider that is neither available nor installed
/// by the plan itself: a plan exists only where the provider is available or
/// can install itself, in the second case the plan begins with the provider's own
/// bootstrap, and in both it ends with the install.
pub proof fn install_follows_availability_or_bootstrap(
    bootstrap: Seq<AtomView>,
    repository: Seq<AtomView>,
    install: Seq<AtomView>,
    available: bool,
    has_repository: bool,
)
    ensures
        match install_outcome(bootstrap, repository, install, available, has_repository) {
            Ok(plan) => {
                &&& available || (bootstrap.len() > 0 && plan.len() >= bootstrap.len()
                    && plan.subrange(0, bootstrap.len() as int) == bootstrap)
                &&& plan.len() >= install.len()
                &&& plan.subrange(plan.len() - install.len(), plan.len() as int) == install
            },
            Err(error) => error == ProviderError::Unavailable && !available && bootstrap.len()
                == 0,
        },
{
    match install_outcome(bootstrap, repository, install, available, has_repository) {
        Ok(plan) => {
            if !available {
                assert(plan.subrange(0, bootstrap.len() as int) =~= bootstrap);
            }
            assert(plan.subrange(plan.len() - install.len(), plan.len() as int) =~= install);
        },
        Err(_) => {},
    }
}

/// What installing `package` through `provider` comes to on a machine that gave
/// these two answers.
pub open spec fn provider_outcome<P: PackageProvider + ?Sized>(
    provider: &P,
    package: PackageVariantView,
    available: bool,
    has_repository: bool,
) -> Result<Seq<AtomView>, ProviderError> {
    install_outcome(
        provider.bootstrap_plan(),
        provider.repository_plan(package),
        provider.install_plan(package),
        available,
        has_repository,
    )
}

/// Plans the install of `package` through `provider`, given what the machine
/// answered: whether the provider is available and whether it has the
/// repository. The provider is asked for its install atoms only where it is
/// available or can install itself.
pub fn plan_install_given<P: PackageProvider + ?Sized>(
    provider: &P,
    package: &PackageVariant,
    available: bool,
    has_repository: bool,
) -> (plan: Result<Vec<Atom>, ProviderError>)
    ensures
        plan_or_error(plan) == provider_outcome(provider, package@, available, has_repository),
{
    let mut plan: Vec<Atom> = Vec::new();
    if !available {
        let bootstrap = provider.bootstrap();
        if bootstrap.len() == 0 {
            return Err(ProviderError::Unavailable);
        }
        append_atoms(&mut plan, bootstrap);
    }
    if !has_repository {
        append_atoms(&mut plan, provider.add_repository(package));
    }
    append_atoms(&mut plan, provider.install(package));
    Ok(plan)
}

/// Plans the install of `package` through `provider`: asks the provider whether
/// it is available and whether it has the repository, and plans by the answers.
pub fn plan_install<P: PackageProvider + ?Sized>(provider: &P, package: &PackageVariant) -> (plan:
    Result<Vec<Atom>, ProviderError>)
    ensures
        exists|available: bool, has_repository: bool|
            {
                &&& provider.may_be_available(available)
                &&& provider.may_have_repository(package@, has_repository)
                &&& plan_or_error(plan) == #[trigger] provider_outcome(
                    provider,
                    package@,
                    available,
                    has_repository,
                )
            },
{
    let available = provider.available();
    let has_repository = provider.has_repository(package);
    plan_install_given(provider, package, available, has_repository)
}

} // verus!
