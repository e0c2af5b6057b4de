use provision::atoms::{append_atoms, append_copies, words, Atom};

#[test]
fn exec_runs_unprivileged_in_the_current_directory() {
    let atom = Atom::exec("ls", vec![String::from("-l")]);
    assert_eq!(
        atom,
        Atom::Exec {
            command: String::from("ls"),
            arguments: vec![String::from("-l")],
            working_dir: None,
            privileged: false,
        }
    );
    assert!(!atom.is_privileged());
}

#[test]
fn only_privileged_commands_are_privileged() {
    let root = Atom::Exec {
        command: String::from("pacman"),
        arguments: vec![],
        working_dir: None,
        privileged: true,
    };
    assert!(root.is_privileged());
    assert!(!Atom::Create { path: String::from("/etc/hosts") }.is_privileged());
    assert!(!Atom::Chmod { path: String::from("/etc/hosts"), mode: 0o644 }.is_privileged());
    assert!(!Atom::SetContents { path: String::from("/etc/hosts"), contents: String::new() }
        .is_privileged());
}

#[test]
fn words_owns_each_word_in_order() {
    assert_eq!(words(&["-S", "--noconfirm"]), vec![String::from("-S"), String::from("--noconfirm")]);
    assert_eq!(words(&[]), Vec::<String>::new());
}

#[test]
fn append_copies_keeps_both_lists_in_order() {
    let mut list = vec![String::from("a")];
    let more = vec![String::from("b"), String::from("c")];
    append_copies(&mut list, &more);
    assert_eq!(list, vec![String::from("a"), String::from("b"), String::from("c")]);
    assert_eq!(more.len(), 2);
    append_copies(&mut list, &Vec::new());
    assert_eq!(list.len(), 3);
}

#[test]
fn append_atoms_keeps_the_order_of_both_plans() {
    let mut plan = vec![Atom::Create { path: String::from("a") }];
    let more = vec![
        Atom::Create { path: String::from("b") },
        Atom::Chmod { path: String::from("b"), mode: 1 },
    ];
    append_atoms(&mut plan, more);
    assert_eq!(
        plan,
        vec![
            Atom::Create { path: String::from("a") },
            Atom::Create { path: String::from("b") },
            Atom::Chmod { path: String::from("b"), mode: 1 },
        ]
    );
}
