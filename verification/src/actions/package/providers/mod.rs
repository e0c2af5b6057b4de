//! Package providers: the tools that can install packages.
use crate::actions::package::{PackageVariant, PackageVariantView};
use crate::atoms::{Atom, AtomView};
use vstd::prelude::*;

pub mod yay;

verus! {

/// A tool that installs packages. What a provider plans is a function of the
/// request alone, and each such method has a specification function that says
/// what it returns. Whether the tool is installed, and whether it knows a
/// repository, is a fact of the machine: for those two methods a specification
/// function says which answers may be given, by default either.
///
/// A specification function of the first kind that an implementation leaves at
/// its default is unspecified, and nothing can be concluded of the method that
/// it stands for.
pub trait PackageProvider {
    /// Whether `available` is an answer that the provider may give when it is
    /// asked whether it is installed.
    open spec fn may_be_available(&self, available: bool) -> bool {
        true
    }

    /// Whether `known` is an answer that the provider may give when it is asked
    /// whether it has the repository that `package` needs.
    open spec fn may_have_repository(&self, package: PackageVariantView, known: bool) -> bool {
        true
    }

    /// The name of the provider.
    open spec fn label(&self) -> Seq<char> {
        arbitrary()
    }

    /// The plan that installs the provider itself; empty where it cannot.
    open spec fn bootstrap_plan(&self) -> Seq<AtomView> {
        arbitrary()
    }

    /// The plan that registers the repository that `package` needs; empty where
    /// the provider has no repositories.
    open spec fn repository_plan(&self, package: PackageVariantView) -> Seq<AtomView> {
        arbitrary()
    }

    /// The names under which the provider knows the packages of `package`.
    open spec fn queried(&self, package: PackageVariantView) -> Seq<Seq<char>> {
        arbitrary()
    }

    /// The plan that installs the packages of `package`.
    open spec fn install_plan(&self, package: PackageVariantView) -> Seq<AtomView> {
        arbitrary()
    }

    /// The name by which requests and logs refer to the provider.
    fn name(&self) -> (name: &str)
        ensures
            name@ == self.label(),
    ;

    /// Whether the provider is installed on this machine.
    fn available(&self) -> (available: bool)
        ensures
            self.may_be_available(available),
    ;

    /// The atoms that install the provider itself, each safe to run again.
    fn bootstrap(&self) -> (plan: Vec<Atom>)
        ensures
            plan.deep_view() == self.bootstrap_plan(),
    ;

    /// Whether the provider already has the repository that `package` needs.
    fn has_repository(&self, package: &PackageVariant) -> (known: bool)
        ensures
            self.may_have_repository(package@, known),
    ;

    /// The atoms that register the repository that `package` needs.
    fn add_repository(&self, package: &PackageVariant) -> (plan: Vec<Atom>)
        ensures
            plan.deep_view() == self.repository_plan(package@),
    ;

    /// The package names that the provider will act on.
    fn query(&self, package: &PackageVariant) -> (names: Vec<String>)
        ensures
            names.deep_view() == self.queried(package@),
    ;

    /// The atoms that install the packages of `package`.
    fn install(&self, package: &PackageVariant) -> (plan: Vec<Atom>)
        ensures
            plan.deep_view() == self.install_plan(package@),
    ;
}

} // verus!
