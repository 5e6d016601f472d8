use dotman::errors::Error;
use dotman::package::Collection;
use dotman::package::Package;
use dotman::remote::Remote;
use dotman::repo::Repository;
use dotman::required_packages::gather_required_packages;

fn pkg(name: &str, deps: &[&str]) -> Package {
    Package {
        name: String::from(name),
        description: String::from("a package"),
        repo: Remote::Github { owner: String::from("owner"), repo: String::from(name) },
        install_path: String::from("~/.config/test"),
        dependencies: deps.iter().map(|d| String::from(*d)).collect(),
    }
}

fn col(name: &str, members: &[&str]) -> Collection {
    Collection {
        name: String::from(name),
        description: String::from("a collection"),
        packages: members.iter().map(|m| String::from(*m)).collect(),
    }
}

fn sorted(mut v: Vec<String>) -> Vec<String> {
    v.sort();
    v
}

fn names(v: &[&str]) -> Vec<String> {
    v.iter().map(|s| String::from(*s)).collect()
}

#[test]
fn cycle_terminates_and_returns_both() {
    let repo = Repository {
        packages: vec![pkg("a", &["b"]), pkg("b", &["a"])],
        collections: vec![],
    };
    let r = gather_required_packages(&names(&["a"]), &repo).unwrap();
    assert_eq!(sorted(r), names(&["a", "b"]));
}

#[test]
fn collection_expands_one_level_with_dependencies() {
    let repo = Repository {
        packages: vec![pkg("a", &["c"]), pkg("b", &[]), pkg("c", &[])],
        collections: vec![col("x", &["a", "b"])],
    };
    let r = gather_required_packages(&names(&["x"]), &repo).unwrap();
    assert_eq!(sorted(r), names(&["a", "b", "c"]));
}

#[test]
fn unknown_name_fails_with_unknown_package() {
    let repo = Repository { packages: vec![pkg("a", &[])], collections: vec![] };
    let e = gather_required_packages(&names(&["nope"]), &repo).unwrap_err();
    assert!(matches!(e, Error::UnknownPackage(n) if n == "nope"));
}

#[test]
fn unknown_transitive_dependency_fails() {
    let repo = Repository { packages: vec![pkg("a", &["ghost"])], collections: vec![] };
    let e = gather_required_packages(&names(&["a"]), &repo).unwrap_err();
    assert!(matches!(e, Error::UnknownPackage(n) if n == "ghost"));
}

#[test]
fn resolution_is_order_independent() {
    let repo = Repository {
        packages: vec![pkg("a", &["c"]), pkg("b", &[]), pkg("c", &[])],
        collections: vec![],
    };
    let r1 = gather_required_packages(&names(&["a", "b"]), &repo).unwrap();
    let r2 = gather_required_packages(&names(&["b", "a"]), &repo).unwrap();
    assert_eq!(sorted(r1), sorted(r2));
}

#[test]
fn result_has_no_duplicates() {
    let repo = Repository {
        packages: vec![pkg("a", &["b", "b", "c"]), pkg("b", &["c"]), pkg("c", &[])],
        collections: vec![],
    };
    let r = gather_required_packages(&names(&["a", "a"]), &repo).unwrap();
    assert_eq!(sorted(r), names(&["a", "b", "c"]));
}

#[test]
fn deep_chain_is_fully_resolved() {
    let repo = Repository {
        packages: vec![pkg("a", &["b"]), pkg("b", &["c"]), pkg("c", &["d"]), pkg("d", &[])],
        collections: vec![],
    };
    let r = gather_required_packages(&names(&["a"]), &repo).unwrap();
    assert_eq!(sorted(r), names(&["a", "b", "c", "d"]));
}

#[test]
fn empty_request_resolves_to_nothing() {
    let repo = Repository { packages: vec![pkg("a", &[])], collections: vec![] };
    let r = gather_required_packages(&names(&[]), &repo).unwrap();
    assert!(r.is_empty());
}

#[test]
fn dependency_naming_a_collection_is_unknown() {
    let repo = Repository {
        packages: vec![pkg("a", &["x"]), pkg("b", &[])],
        collections: vec![col("x", &["b"])],
    };
    let e = gather_required_packages(&names(&["a"]), &repo).unwrap_err();
    assert!(matches!(e, Error::UnknownPackage(n) if n == "x"));
}

#[test]
fn requested_collection_name_is_not_reexpanded() {
    // The requested names are seeded as visited: a collection name that
    // also appears as a dependency stays in the result unexpanded.
    let repo = Repository {
        packages: vec![pkg("a", &["grp"])],
        collections: vec![col("grp", &["a"])],
    };
    let r = gather_required_packages(&names(&["grp"]), &repo).unwrap();
    assert_eq!(sorted(r), names(&["a", "grp"]));
}

#[test]
fn collection_preferred_over_package_of_same_name() {
    let repo = Repository {
        packages: vec![pkg("dual", &["a"]), pkg("a", &[]), pkg("b", &[])],
        collections: vec![col("dual", &["b"])],
    };
    let r = gather_required_packages(&names(&["dual"]), &repo).unwrap();
    assert_eq!(sorted(r), names(&["b"]));
}
