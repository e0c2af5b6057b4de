use provision::actions::package::providers::yay::{found, Yay};
use provision::actions::package::providers::PackageProvider;
use provision::actions::package::registry::{plan_package, plan_package_given, probe, select};
use provision::actions::package::{plan_install, plan_install_given, PackageVariant};
use provision::atoms::Atom;
use provision::errors::ProviderError;
use std::cell::RefCell;
use std::path::PathBuf;
use std::rc::Rc;

fn strings(text: &[&str]) -> Vec<String> {
    text.iter().map(|word| String::from(*word)).collect()
}

fn request(packages: &[&str], extra_args: &[&str], provider: Option<&str>) -> PackageVariant {
    PackageVariant {
        packages: strings(packages),
        extra_args: strings(extra_args),
        provider: provider.map(String::from),
    }
}

fn run(command: &str, arguments: &[&str]) -> Atom {
    Atom::Exec {
        command: String::from(command),
        arguments: strings(arguments),
        working_dir: None,
        privileged: false,
    }
}

fn yay_bootstrap() -> Vec<Atom> {
    vec![
        Atom::Exec {
            command: String::from("pacman"),
            arguments: strings(&["-S", "--noconfirm", "base-devel", "git"]),
            working_dir: None,
            privileged: true,
        },
        run("git", &["clone", "https://aur.archlinux.org/yay.git", "/tmp/yay"]),
        Atom::Exec {
            command: String::from("makepkg"),
            arguments: strings(&["-si", "--noconfirm"]),
            working_dir: Some(String::from("/tmp/yay")),
            privileged: false,
        },
    ]
}

fn yay_install(arguments: &[&str]) -> Atom {
    let mut all = vec!["-S", "--noconfirm", "--nocleanmenu", "--nodiffmenu"];
    all.extend_from_slice(arguments);
    run("yay", &all)
}

/// A provider that answers as it was told and writes down what it was asked.
struct Recorder {
    name: &'static str,
    available: bool,
    can_bootstrap: bool,
    has_repository: bool,
    calls: Rc<RefCell<Vec<String>>>,
}

impl Recorder {
    fn new(name: &'static str, available: bool, can_bootstrap: bool) -> Recorder {
        Recorder {
            name,
            available,
            can_bootstrap,
            has_repository: true,
            calls: Rc::new(RefCell::new(Vec::new())),
        }
    }

    fn note(&self, call: &str) {
        self.calls.borrow_mut().push(format!("{}.{}", self.name, call));
    }

    fn step(&self, what: &str) -> Atom {
        run(self.name, &[what])
    }
}

impl PackageProvider for Recorder {
    fn name(&self) -> &str {
        self.name
    }

    fn available(&self) -> bool {
        self.note("available");
        self.available
    }

    fn bootstrap(&self) -> Vec<Atom> {
        self.note("bootstrap");
        if self.can_bootstrap {
            vec![self.step("bootstrap")]
        } else {
            vec![]
        }
    }

    fn has_repository(&self, _package: &PackageVariant) -> bool {
        self.note("has_repository");
        self.has_repository
    }

    fn add_repository(&self, _package: &PackageVariant) -> Vec<Atom> {
        self.note("add_repository");
        vec![self.step("add-repository")]
    }

    fn query(&self, package: &PackageVariant) -> Vec<String> {
        self.note("query");
        package.packages()
    }

    fn install(&self, package: &PackageVariant) -> Vec<Atom> {
        self.note("install");
        let mut arguments = vec![String::from("install")];
        arguments.extend(self.query(package));
        vec![Atom::Exec {
            command: String::from(self.name),
            arguments,
            working_dir: None,
            privileged: false,
        }]
    }
}

fn install_is_preceded(calls: &[String], name: &str, available: bool) -> bool {
    let install = format!("{}.install", name);
    let bootstrap = format!("{}.bootstrap", name);
    let asked = format!("{}.available", name);
    match calls.iter().position(|call| *call == install) {
        None => true,
        Some(at) => {
            calls[..at].contains(&asked) && (available || calls[..at].contains(&bootstrap))
        }
    }
}

#[test]
fn yay_is_called_yay() {
    assert_eq!(Yay {}.name(), "Yay");
}

#[test]
fn yay_bootstraps_in_three_steps() {
    assert_eq!(Yay {}.bootstrap(), yay_bootstrap());
    assert_eq!(Yay {}.bootstrap(), Yay {}.bootstrap());
    let privileged: Vec<bool> = Yay {}.bootstrap().iter().map(Atom::is_privileged).collect();
    assert_eq!(privileged, vec![true, false, false]);
}

#[test]
fn yay_has_no_repositories() {
    let package = request(&["vim"], &[], None);
    assert!(!Yay {}.has_repository(&package));
    assert_eq!(Yay {}.add_repository(&package), Vec::<Atom>::new());
}

#[test]
fn yay_queries_packages_under_their_own_names() {
    let package = request(&["vim", "git"], &["--foo"], None);
    assert_eq!(Yay {}.query(&package), strings(&["vim", "git"]));
    assert_eq!(package.packages(), strings(&["vim", "git"]));
    assert_eq!(Yay {}.query(&request(&[], &[], None)), Vec::<String>::new());
}

#[test]
fn yay_installs_with_flags_then_extra_arguments_then_packages() {
    let package = request(&["vim", "git"], &["--foo"], None);
    let plan = Yay {}.install(&package);
    assert_eq!(plan, vec![yay_install(&["--foo", "vim", "git"])]);
    match &plan[0] {
        Atom::Exec { arguments, .. } => {
            assert_eq!(arguments[arguments.len() - 3..], strings(&["--foo", "vim", "git"])[..]);
            assert_eq!(
                arguments[..4],
                strings(&["-S", "--noconfirm", "--nocleanmenu", "--nodiffmenu"])[..]
            );
        }
        other => panic!("not a command: {:?}", other),
    }
}

#[test]
fn yay_installs_nothing_but_flags_for_an_empty_request() {
    assert_eq!(Yay {}.install(&request(&[], &[], None)), vec![yay_install(&[])]);
    assert_eq!(
        Yay {}.install(&request(&["vim"], &["--a", "--b"], None)),
        vec![yay_install(&["--a", "--b", "vim"])]
    );
}

#[test]
fn yay_is_available_where_its_executable_is_found() {
    assert_eq!(Yay {}.executable(), "yay");
    assert_eq!(Yay {}.available(), which::which("yay").is_ok());
    assert!(found(&Ok(PathBuf::from("/usr/bin/yay"))));
    assert!(!found(&Err(which::Error::CannotFindBinaryPath)));
    assert!(!found(&Err(which::Error::BadAbsolutePath)));
}

#[test]
fn an_available_provider_only_installs() {
    let package = request(&["vim", "git"], &["--foo"], None);
    assert_eq!(
        plan_install_given(&Yay {}, &package, true, true),
        Ok(vec![yay_install(&["--foo", "vim", "git"])])
    );
    assert_eq!(
        plan_install_given(&Yay {}, &package, true, false),
        Ok(vec![yay_install(&["--foo", "vim", "git"])])
    );
}

#[test]
fn an_unavailable_provider_bootstraps_first() {
    let package = request(&["vim"], &[], None);
    let mut expected = yay_bootstrap();
    expected.push(yay_install(&["vim"]));
    assert_eq!(plan_install_given(&Yay {}, &package, false, false), Ok(expected));
}

#[test]
fn a_missing_repository_is_added_between_bootstrap_and_install() {
    let package = request(&["vim"], &[], None);
    let apt = Recorder::new("apt", false, true);
    assert_eq!(
        plan_install_given(&apt, &package, false, false),
        Ok(vec![
            run("apt", &["bootstrap"]),
            run("apt", &["add-repository"]),
            run("apt", &["install", "vim"]),
        ])
    );
    assert_eq!(
        plan_install_given(&apt, &package, true, false),
        Ok(vec![run("apt", &["add-repository"]), run("apt", &["install", "vim"])])
    );
    assert_eq!(
        plan_install_given(&apt, &package, false, true),
        Ok(vec![run("apt", &["bootstrap"]), run("apt", &["install", "vim"])])
    );
}

#[test]
fn a_provider_without_a_bootstrap_route_is_unavailable() {
    let package = request(&["vim"], &[], None);
    let brew = Recorder::new("brew", false, false);
    assert_eq!(
        plan_install_given(&brew, &package, false, false),
        Err(ProviderError::Unavailable)
    );
    assert_eq!(plan_install(&brew, &package), Err(ProviderError::Unavailable));
    assert!(!brew.calls.borrow().contains(&String::from("brew.install")));
}

#[test]
fn install_is_never_asked_before_availability_or_bootstrap() {
    let package = request(&["vim"], &[], None);
    for available in [false, true] {
        for can_bootstrap in [false, true] {
            let provider = Recorder::new("apt", available, can_bootstrap);
            let plan = plan_install(&provider, &package);
            let calls = provider.calls.borrow().clone();
            assert!(install_is_preceded(&calls, "apt", available));
            assert_eq!(calls[0], "apt.available");
            assert_eq!(plan.is_ok(), available || can_bootstrap);
            assert_eq!(calls.contains(&String::from("apt.install")), available || can_bootstrap);
            if let Ok(atoms) = plan {
                assert_eq!(atoms.last(), Some(&run("apt", &["install", "vim"])));
                assert_eq!(atoms[0] == run("apt", &["bootstrap"]), !available);
            }
        }
    }
}

#[test]
fn the_registry_is_asked_in_order_and_install_comes_last() {
    let package = request(&["vim"], &[], None);
    let log = Rc::new(RefCell::new(Vec::new()));
    let mut registry: Vec<Box<dyn PackageProvider>> = Vec::new();
    for (name, available, can_bootstrap) in
        [("brew", false, true), ("apt", true, false), ("yum", true, true)]
    {
        let mut provider = Recorder::new(name, available, can_bootstrap);
        provider.calls = log.clone();
        registry.push(Box::new(provider));
    }
    assert_eq!(plan_package(&registry, &package), Ok(vec![run("apt", &["install", "vim"])]));
    let calls = log.borrow().clone();
    assert_eq!(calls[..3], strings(&["brew.available", "apt.available", "yum.available"])[..]);
    assert!(install_is_preceded(&calls, "apt", true));
    assert!(!calls.contains(&String::from("brew.install")));
    assert!(!calls.contains(&String::from("yum.install")));
    assert_eq!(calls.iter().filter(|call| call.ends_with(".install")).count(), 1);
}

fn registry(providers: &[(&'static str, bool, bool)]) -> Vec<Box<dyn PackageProvider>> {
    providers
        .iter()
        .map(|(name, available, can_bootstrap)| {
            Box::new(Recorder::new(name, *available, *can_bootstrap)) as Box<dyn PackageProvider>
        })
        .collect()
}

#[test]
fn probe_asks_every_provider() {
    let registry = registry(&[("brew", false, true), ("apt", true, false), ("yum", true, true)]);
    assert_eq!(probe(&registry), vec![false, true, true]);
    assert_eq!(probe(&Vec::new()), Vec::<bool>::new());
}

#[test]
fn discovery_takes_the_first_available_provider() {
    let registry = registry(&[("brew", false, true), ("apt", true, false), ("yum", true, true)]);
    assert_eq!(select(&registry, &None, &vec![false, true, true]), Ok(1));
    assert_eq!(select(&registry, &None, &vec![true, true, true]), Ok(0));
    assert_eq!(select(&registry, &None, &vec![false, false, true]), Ok(2));
}

#[test]
fn discovery_falls_back_to_the_first_bootstrap_route() {
    let registry = registry(&[("apt", false, false), ("brew", false, true), ("yum", false, true)]);
    assert_eq!(select(&registry, &None, &vec![false, false, false]), Ok(1));
    let stuck = self::registry(&[("apt", false, false), ("dnf", false, false)]);
    assert_eq!(select(&stuck, &None, &vec![false, false]), Err(ProviderError::Unavailable));
    assert_eq!(select(&Vec::new(), &None, &Vec::new()), Err(ProviderError::Unavailable));
}

#[test]
fn a_named_provider_overrides_discovery() {
    let registry = registry(&[("apt", true, false), ("brew", false, true), ("dnf", false, false)]);
    let available = vec![true, false, false];
    assert_eq!(select(&registry, &Some(String::from("brew")), &available), Ok(1));
    assert_eq!(select(&registry, &Some(String::from("apt")), &available), Ok(0));
    assert_eq!(
        select(&registry, &Some(String::from("dnf")), &available),
        Err(ProviderError::Unavailable)
    );
    assert_eq!(
        select(&registry, &Some(String::from("pkg")), &available),
        Err(ProviderError::Unknown)
    );
    assert_eq!(
        select(&registry, &Some(String::from("Apt")), &available),
        Err(ProviderError::Unknown)
    );
}

#[test]
fn the_first_provider_of_a_name_is_the_one_that_counts() {
    let registry = registry(&[("apt", false, false), ("apt", true, true)]);
    assert_eq!(
        select(&registry, &Some(String::from("apt")), &vec![false, true]),
        Err(ProviderError::Unavailable)
    );
    assert_eq!(select(&registry, &None, &vec![false, true]), Ok(1));
}

#[test]
fn a_package_is_planned_through_the_provider_that_serves_it() {
    let registry = registry(&[("apt", true, false), ("brew", false, true)]);
    let by_discovery = request(&["vim", "git"], &[], None);
    assert_eq!(
        plan_package(&registry, &by_discovery),
        Ok(vec![run("apt", &["install", "vim", "git"])])
    );
    let by_name = request(&["vim"], &[], Some("brew"));
    assert_eq!(
        plan_package(&registry, &by_name),
        Ok(vec![run("brew", &["bootstrap"]), run("brew", &["install", "vim"])])
    );
    assert_eq!(
        plan_package_given(&registry, &by_name, &vec![true, true]),
        Ok(vec![run("brew", &["install", "vim"])])
    );
    let unknown = request(&["vim"], &[], Some("pkg"));
    assert_eq!(plan_package(&registry, &unknown), Err(ProviderError::Unknown));
    let nobody = self::registry(&[("apt", false, false)]);
    assert_eq!(plan_package(&nobody, &by_discovery), Err(ProviderError::Unavailable));
}

#[test]
fn yay_serves_from_a_registry() {
    let registry: Vec<Box<dyn PackageProvider>> = vec![Box::new(Yay {})];
    let package = request(&["vim", "git"], &["--foo"], Some("Yay"));
    let mut bootstrapped = yay_bootstrap();
    bootstrapped.push(yay_install(&["--foo", "vim", "git"]));
    assert_eq!(plan_package_given(&registry, &package, &vec![false]), Ok(bootstrapped));
    assert_eq!(
        plan_package_given(&registry, &package, &vec![true]),
        Ok(vec![yay_install(&["--foo", "vim", "git"])])
    );
    let lower = request(&["vim"], &[], Some("yay"));
    assert_eq!(plan_package_given(&registry, &lower, &vec![true]), Err(ProviderError::Unknown));
}
