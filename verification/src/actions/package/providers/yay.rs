//! The `yay` helper of Arch Linux.
use crate::actions::package::providers::PackageProvider;
use crate::actions::package::{PackageVariant, PackageVariantView};
use crate::atoms::{append_copies, command, words, Atom, AtomView};
use crate::outside::find_executable;
use vstd::prelude::*;

verus! {

/// Installs packages with `yay`.
#[derive(Clone, Debug, PartialEq)]
pub struct Yay {}

/// The flags that keep `yay` from asking questions.
pub open spec fn quiet_flags() -> Seq<Seq<char>> {
    seq!["-S"@, "--noconfirm"@, "--nocleanmenu"@, "--nodiffmenu"@]
}

/// The three steps that build `yay` from its sources: install the build tools
/// with `pacman` as root, clone the sources to `/tmp/yay`, build and install
/// them there.
pub open spec fn bootstrap_steps() -> Seq<AtomView> {
    seq![
        AtomView::Exec {
            command: "pacman"@,
            arguments: seq!["-S"@, "--noconfirm"@, "base-devel"@, "git"@],
            working_dir: None,
            privileged: true,
        },
        command("git"@, seq!["clone"@, "https://aur.archlinux.org/yay.git"@, "/tmp/yay"@]),
        AtomView::Exec {
            command: "makepkg"@,
            arguments: seq!["-si"@, "--noconfirm"@],
            working_dir: Some("/tmp/yay"@),
            privileged: false,
        },
    ]
}

/// Whether a search for an executable found one.
pub fn found(search: &Result<std::path::PathBuf, which::Error>) -> (found: bool)
    ensures
        found == (search is Ok),
{
    match search {
        Ok(_) => true,
        Err(_) => false,
    }
}

impl Yay {
    /// The name of the executable that tells whether `yay` is installed.
    pub fn executable(&self) -> (name: &'static str)
        ensures
            name@ == "yay"@,
    {
        "yay"
    }
}

impl PackageProvider for Yay {
    /// `yay` has no repositories to register, so none is ever there.
    open spec fn may_have_repository(&self, package: PackageVariantView, known: bool) -> bool {
        !known
    }

    open spec fn label(&self) -> Seq<char> {
        "Yay"@
    }

    open spec fn bootstrap_plan(&self) -> Seq<AtomView> {
        bootstrap_steps()
    }

    open spec fn repository_plan(&self, package: PackageVariantView) -> Seq<AtomView> {
        Seq::empty()
    }

    open spec fn queried(&self, package: PackageVariantView) -> Seq<Seq<char>> {
        package.packages
    }

    open spec fn install_plan(&self, package: PackageVariantView) -> Seq<AtomView> {
        seq![command("yay"@, quiet_flags() + package.extra_args + self.queried(package))]
    }

    fn name(&self) -> (name: &str) {
        "Yay"
    }

    /// Whether an executable called `yay` is on the search path.
    fn available(&self) -> (available: bool) {
        found(&find_executable(self.executable()))
    }

    fn bootstrap(&self) -> (plan: Vec<Atom>) {
        let tools = Atom::Exec {
            command: "pacman".to_owned(),
            arguments: words(&["-S", "--noconfirm", "base-devel", "git"]),
            working_dir: None,
            privileged: true,
        };
        let clone = Atom::exec(
            "git",
            words(&["clone", "https://aur.archlinux.org/yay.git", "/tmp/yay"]),
        );
        let build = Atom::Exec {
            command: "makepkg".to_owned(),
            arguments: words(&["-si", "--noconfirm"]),
            working_dir: Some("/tmp/yay".to_owned()),
            privileged: false,
        };
        assert(tools.deep_view() == bootstrap_steps()[0]) by {
            assert(tools.deep_view()->Exec_arguments =~= seq![
                "-S"@,
                "--noconfirm"@,
                "base-devel"@,
                "git"@,
            ]);
        }
        assert(clone.deep_view() == bootstrap_steps()[1]) by {
            assert(clone.deep_view()->Exec_arguments =~= seq![
                "clone"@,
                "https://aur.archlinux.org/yay.git"@,
                "/tmp/yay"@,
            ]);
        }
        assert(build.deep_view() == bootstrap_steps()[2]) by {
            assert(build.deep_view()->Exec_arguments =~= seq!["-si"@, "--noconfirm"@]);
        }
        let plan = vec![tools, clone, build];
        assert(plan.deep_view() =~= bootstrap_steps());
        plan
    }

    fn has_repository(&self, _package: &PackageVariant) -> (known: bool) {
        false
    }

    fn add_repository(&self, _package: &PackageVariant) -> (plan: Vec<Atom>) {
        Vec::new()
    }

    fn query(&self, package: &PackageVariant) -> (names: Vec<String>) {
        package.packages()
    }

    /// One `yay` command: the quiet flags, then the extra arguments of the
    /// request, then its packages.
    fn install(&self, package: &PackageVariant) -> (plan: Vec<Atom>) {
        let mut arguments = words(&["-S", "--noconfirm", "--nocleanmenu", "--nodiffmenu"]);
        assert(arguments.deep_view() =~= quiet_flags());
        append_copies(&mut arguments, &package.extra_args);
        let names = self.query(package);
        append_copies(&mut arguments, &names);
        let plan = vec![Atom::exec("yay", arguments)];
        assert(plan.deep_view() =~= self.install_plan(package@));
        plan
    }
}

} // verus!
