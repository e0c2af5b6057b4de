//! Actions: the units of desired state that a manifest declares, and the plans
//! they come to.
use crate::actions::file::copy::{ContentSource, FileCopy};
use crate::actions::package::providers::PackageProvider;
use crate::actions::package::registry::{plan_package, planned};
use crate::actions::package::{plan_or_error, PackageVariant};
use crate::atoms::{append_atoms, Atom, AtomView};
use crate::errors::{ContentError, PlanError, ProviderError};
use crate::manifests::Manifest;
use crate::outside::path_parent;
use vstd::prelude::*;

pub mod file;
pub mod package;

verus! {

/// One declared unit of desired state.
#[derive(Clone, Debug, PartialEq)]
pub enum Actions {
    /// Place a file.
    FileCopy(FileCopy),
    /// Install packages.
    PackageInstall(PackageVariant),
}

/// A plan or the reason why there is none, as contracts speak of it.
pub open spec fn plan_view(outcome: Result<Vec<Atom>, PlanError>) -> Result<
    Seq<AtomView>,
    PlanError,
> {
    match outcome {
        Ok(plan) => Ok(plan.deep_view()),
        Err(error) => Err(error),
    }
}

/// The outcome of a file copy as the outcome of an action.
pub open spec fn copied(outcome: Result<Seq<AtomView>, ContentError>) -> Result<
    Seq<AtomView>,
    PlanError,
> {
    match outcome {
        Ok(plan) => Ok(plan),
        Err(error) => Err(PlanError::Content(error)),
    }
}

/// The outcome of a package install as the outcome of an action.
pub open spec fn installed(outcome: Result<Seq<AtomView>, ProviderError>) -> Result<
    Seq<AtomView>,
    PlanError,
> {
    match outcome {
        Ok(plan) => Ok(plan),
        Err(error) => Err(PlanError::Provider(error)),
    }
}

impl Actions {
    /// Whether planning the action may end in `outcome`. A file copy whose
    /// destination has no directory above it has no plan; any other comes to what
    /// the copy plans from `manifest`. A package install comes to what the
    /// registry plans on a machine that gives some answers about its providers.
    pub open spec fn planned(
        &self,
        manifest: &Manifest,
        registry: Seq<Box<dyn PackageProvider>>,
        outcome: Result<Seq<AtomView>, PlanError>,
    ) -> bool {
        match *self {
            Actions::FileCopy(copy) => match path_parent(copy.to@) {
                Some(parent) => outcome == copied(copy@.outcome(manifest@, parent)),
                None => outcome == Err::<Seq<AtomView>, PlanError>(PlanError::Destination),
            },
            Actions::PackageInstall(package) => exists|
                install_outcome: Result<Seq<AtomView>, ProviderError>,
            |
                planned(registry, package@, install_outcome) && outcome == #[trigger] installed(
                    install_outcome,
                ),
        }
    }

    /// The template that has to be rendered before the action can be planned,
    /// if there is one.
    pub open spec fn template(&self) -> Option<Seq<char>> {
        match *self {
            Actions::FileCopy(copy) => if copy.template {
                Some(copy.from@)
            } else {
                None
            },
            Actions::PackageInstall(_) => None,
        }
    }

    /// The template that has to be rendered before the action can be planned,
    /// if there is one.
    pub fn template_needed(&self) -> (name: Option<String>)
        ensures
            crate::atoms::text_of(name) == self.template(),
    {
        match self {
            Actions::FileCopy(copy) => match copy.source() {
                ContentSource::Template(name) => Some(name),
                ContentSource::File(_) => None,
            },
            Actions::PackageInstall(_) => None,
        }
    }

    /// Plans the action: a file copy from what `manifest` holds, a package
    /// install through the providers of `registry`.
    pub fn plan(&self, manifest: &Manifest, registry: &Vec<Box<dyn PackageProvider>>) -> (plan:
        Result<Vec<Atom>, PlanError>)
        ensures
            self.planned(manifest, registry@, plan_view(plan)),
    {
        match self {
            Actions::FileCopy(copy) => match copy.checked_plan(manifest) {
                Some(Ok(atoms)) => Ok(atoms),
                Some(Err(error)) => Err(PlanError::Content(error)),
                None => Err(PlanError::Destination),
            },
            Actions::PackageInstall(package) => {
                let install = plan_package(registry, package);
                let ghost outcome = plan_or_error(install);
                match install {
                    Ok(atoms) => {
                        assert(plan_view(Ok(atoms)) == installed(outcome));
                        Ok(atoms)
                    },
                    Err(error) => {
                        assert(plan_view(Err(PlanError::Provider(error))) == installed(outcome));
                        Err(PlanError::Provider(error))
                    },
                }
            },
        }
    }
}

/// The templates that the first `n` of `actions` need, in the order of the
/// actions.
pub open spec fn templates_of(actions: Seq<Actions>, n: int) -> Seq<Seq<char>>
    decreases n,
{
    if n <= 0 {
        Seq::empty()
    } else {
        match actions[n - 1].template() {
            Some(name) => templates_of(actions, n - 1).push(name),
            None => templates_of(actions, n - 1),
        }
    }
}

/// The templates that have to be rendered before the actions of a manifest can
/// be planned: the source of every file copy that is a template, in the order in
/// which the copies were declared.
pub fn templates_needed(actions: &Vec<Actions>) -> (names: Vec<String>)
    ensures
        names.deep_view() == templates_of(actions@, actions.len() as int),
{
    let mut names: Vec<String> = Vec::new();
    assert(names.deep_view() =~= templates_of(actions@, 0));
    let mut i: usize = 0;
    while i < actions.len()
        invariant
            i <= actions.len(),
            names.deep_view() == templates_of(actions@, i as int),
        decreases actions.len() - i,
    {
        let ghost before = names.deep_view();
        match actions[i].template_needed() {
            Some(name) => {
                names.push(name);
                assert(names.deep_view() =~= before.push(name@));
            },
            None => {},
        }
        i = i + 1;
    }
    names
}

/// Plans every action of a manifest, each by itself and in the order in which
/// they were declared. An action that has no plan does not keep the others from
/// theirs: whether to go on without it is for the caller to say.
pub fn plan_each(
    actions: &Vec<Actions>,
    manifest: &Manifest,
    registry: &Vec<Box<dyn PackageProvider>>,
) -> (plans: Vec<Result<Vec<Atom>, PlanError>>)
    ensures
        plans.len() == actions.len(),
        forall|i: int|
            0 <= i < actions.len() ==> (#[trigger] actions[i]).planned(
                manifest,
                registry@,
                plan_view(plans[i]),
            ),
{
    let mut plans: Vec<Result<Vec<Atom>, PlanError>> = Vec::new();
    let mut i: usize = 0;
    while i < actions.len()
        invariant
            i <= actions.len(),
            plans.len() == i,
            forall|j: int|
                0 <= j < i ==> (#[trigger] actions[j]).planned(
                    manifest,
                    registry@,
                    plan_view(plans[j]),
                ),
        decreases actions.len() - i,
    {
        plans.push(actions[i].plan(manifest, registry));
        i = i + 1;
    }
    plans
}

/// Joins the plans of several actions into one: every atom of every plan, the
/// plans in their order and the atoms of each plan in theirs.
pub fn join(plans: Vec<Vec<Atom>>) -> (plan: Vec<Atom>)
    ensures
        plan.deep_view() == plans.deep_view().flatten(),
{
    let ghost all = plans.deep_view();
    let ghost each = plans@;
    let mut plan: Vec<Atom> = Vec::new();
    for next in it: plans
        invariant
            it.seq() == each,
            all.len() == each.len(),
            forall|i: int| 0 <= i < each.len() ==> all[i] == (#[trigger] each[i]).deep_view(),
            plan.deep_view() == all.take(it.index() as int).flatten(),
    {
        proof {
            let done = all.take(it.index() as int);
            done.lemma_flatten_push(next.deep_view());
            assert(all.take(it.index() + 1) =~= done.push(next.deep_view()));
        }
        append_atoms(&mut plan, next);
    }
    assert(all.take(all.len() as int) =~= all);
    plan
}

} // verus!
