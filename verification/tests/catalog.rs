use dotman::cli::InstallUpdateArgs;
use dotman::commands::inspect::inspect;
use dotman::commands::inspect::Inspection;
use dotman::commands::script::script;
use dotman::commands::script::ScriptPlanEntry;
use dotman::commands::search::search;
use dotman::config::Config;
use dotman::config::GitConfig;
use dotman::config::GitUpdateType;
use dotman::errors::Error;
use dotman::errors::GitError;
use dotman::errors::HookKind;
use dotman::errors::Stage;
use dotman::gitactions::GitWrapper;
use dotman::package::Collection;
use dotman::package::Package;
use dotman::package::PackageFile;
use dotman::print;
use dotman::print::Printer;
use dotman::remote::Remote;
use dotman::repo::Repository;

fn pkg(name: &str, deps: &[&str]) -> Package {
    Package {
        name: String::from(name),
        description: String::from("desc"),
        repo: Remote::Github { owner: String::from("me"), repo: String::from(name) },
        install_path: String::from("~/.config/x"),
        dependencies: deps.iter().map(|d| String::from(*d)).collect(),
    }
}

#[test]
fn remote_urls_follow_the_host() {
    let gh = Remote::Github { owner: String::from("me"), repo: String::from("dots") };
    assert_eq!(gh.url(), "git@github.com:me/dots.git");
    let gl = Remote::Gitlab { owner: String::from("me"), repo: String::from("dots") };
    assert_eq!(gl.url(), "git@gitlab.com:me/dots.git");
    let cu = Remote::Custom {
        owner: String::from("me"),
        repo: String::from("dots"),
        url: String::from("git.example.org"),
    };
    assert_eq!(cu.url(), "git@git.example.org:me/dots.git");
}

#[test]
fn package_url_and_install_path() {
    let p = pkg("vim", &[]);
    assert_eq!(p.url(), "git@github.com:me/vim.git");
    assert_eq!(p.install_path("/home/u"), "/home/u/.config/x");
}

#[test]
fn package_pprint_names_every_field() {
    let p = pkg("vim", &[]);
    assert_eq!(
        p.pprint(),
        "vim - desc\n  Url: git@github.com:me/vim.git\n  Install Path: ~/.config/x"
    );
}

#[test]
fn collection_pprint_joins_members() {
    let c = Collection {
        name: String::from("editors"),
        description: String::from("the editors"),
        packages: vec![String::from("vim"), String::from("emacs")],
    };
    assert_eq!(c.pprint(), "editors - the editors\n  Packages: vim, emacs");
}

#[test]
fn package_file_is_valid_with_exactly_one_entry() {
    let only_pkg = PackageFile { collection: None, package: Some(pkg("a", &[])) };
    assert!(only_pkg.valid());
    assert!(only_pkg.is_package());
    assert!(!only_pkg.is_collection());
    assert_eq!(only_pkg.package().name, "a");

    let only_col = PackageFile {
        collection: Some(Collection {
            name: String::from("c"),
            description: String::from("d"),
            packages: vec![],
        }),
        package: None,
    };
    assert!(only_col.valid());
    assert_eq!(only_col.collection().name, "c");

    let both = PackageFile {
        collection: Some(Collection {
            name: String::from("c"),
            description: String::from("d"),
            packages: vec![],
        }),
        package: Some(pkg("a", &[])),
    };
    assert!(!both.valid());

    let neither = PackageFile { collection: None, package: None };
    assert!(!neither.valid());
}

#[test]
fn config_exposes_url_path_and_update_type() {
    let conf = Config::new(
        Remote::Github { owner: String::from("me"), repo: String::from("catalog") },
        String::from("~/.dotman"),
        GitConfig { update_type: GitUpdateType::default() },
    );
    assert_eq!(conf.url(), "git@github.com:me/catalog.git");
    assert_eq!(conf.path("/home/u"), "/home/u/.dotman");
    assert!(matches!(conf.git.update_type, GitUpdateType::FetchRebase));
}

#[test]
fn repository_lookup_takes_the_first_match() {
    let mut first = pkg("dup", &[]);
    first.description = String::from("first");
    let mut second = pkg("dup", &[]);
    second.description = String::from("second");
    let repo = Repository { packages: vec![first, second, pkg("other", &[])], collections: vec![] };
    assert_eq!(repo.find_package("dup").unwrap().description, "first");
    assert_eq!(repo.get_package_from_string("other").name, "other");
    assert!(repo.find_package("missing").is_none());
    assert_eq!(
        repo.all_package_names(),
        vec![String::from("dup"), String::from("dup"), String::from("other")]
    );
}

#[test]
fn inspect_prefers_packages_then_collections() {
    let repo = Repository {
        packages: vec![pkg("dual", &[])],
        collections: vec![Collection {
            name: String::from("dual"),
            description: String::from("d"),
            packages: vec![],
        }],
    };
    assert!(matches!(inspect(&repo, "dual"), Inspection::Package(p) if p.name == "dual"));
    let repo2 = Repository {
        packages: vec![],
        collections: vec![Collection {
            name: String::from("grp"),
            description: String::from("d"),
            packages: vec![],
        }],
    };
    assert!(matches!(inspect(&repo2, "grp"), Inspection::Collection(c) if c.name == "grp"));
    assert!(matches!(inspect(&repo2, "nope"), Inspection::NotFound));
}

#[test]
fn search_matches_name_description_path_and_url() {
    let mut by_desc = pkg("plain", &[]);
    by_desc.description = String::from("a NeoVim setup");
    let by_url = pkg("dotfiles", &[]);
    let unrelated = pkg("zsh", &[]);
    let repo = Repository {
        packages: vec![by_desc, by_url, unrelated],
        collections: vec![Collection {
            name: String::from("editors"),
            description: String::from("all the editors"),
            packages: vec![],
        }],
    };
    let r = search(&repo, "neovim");
    assert_eq!(r.packages.len(), 1);
    assert_eq!(r.packages[0].name, "plain");
    assert!(r.collections.is_empty());

    let r2 = search(&repo, "github.com:me/dotfiles");
    assert_eq!(r2.packages.len(), 1);
    assert_eq!(r2.packages[0].name, "dotfiles");

    let r3 = search(&repo, "EDITORS");
    assert_eq!(r3.collections.len(), 1);
    assert_eq!(r3.collections[0].name, "editors");
}

#[test]
fn script_plans_known_and_unknown_packages() {
    let repo = Repository { packages: vec![pkg("vim", &[])], collections: vec![] };
    let requested = vec![String::from("vim"), String::from("ghost")];
    let plan = script(&repo, &requested, HookKind::PostInstall, "/home/u");
    assert_eq!(plan.len(), 2);
    match &plan[0] {
        ScriptPlanEntry::Run { name, install_path, hook } => {
            assert_eq!(name, "vim");
            assert_eq!(install_path, "/home/u/.config/x");
            assert!(matches!(hook, HookKind::PostInstall));
        },
        e => panic!("expected a run entry, got {:?}", e),
    }
    assert!(matches!(&plan[1], ScriptPlanEntry::Unknown { name } if name == "ghost"));
}

#[test]
fn report_texts_carry_their_labels() {
    assert_eq!(print::success("done"), "SUCCESS: done");
    assert_eq!(print::warning("careful"), "WARNING: careful");
    assert_eq!(print::error("broken"), "ERROR: broken");
    assert_eq!(print::fatal("dead"), "FATAL: dead");
    let pp = Printer::new(String::from("vim"));
    assert_eq!(pp.info("cloning"), "vim: cloning");
    assert_eq!(pp.success("cloned"), "SUCCESS: vim: cloned");
    assert_eq!(pp.warning("odd"), "WARNING: vim: odd");
    assert_eq!(pp.fatal("gone"), "FATAL: vim: gone");
}

#[test]
fn error_messages_name_their_subject() {
    assert_eq!(
        Error::UnknownPackage(String::from("vim")).message(),
        "Package 'vim' can't be found..."
    );
    assert_eq!(
        Error::RemoteNotFound(String::from("git@x:a/b.git")).message(),
        "No remote matches 'git@x:a/b.git'..."
    );
    assert_eq!(
        Error::ConflictingInstallPath(String::from("/p")).message(),
        "'/p' exists but isn't a dotman repo..."
    );
    assert_eq!(
        Error::SourceControlFailure(Stage::Fetch, String::from("timeout")).message(),
        "fetch failed: timeout"
    );
    assert_eq!(
        Error::HookFailure(HookKind::PostUpdate, String::from("lua error")).message(),
        "post-update hook failed: lua error"
    );
    assert_eq!(GitError::Unknown(String::from("boom")).message(), "boom");
}

#[test]
fn stderr_classification_recognizes_missing_repositories() {
    let w = GitWrapper::new("git@github.com:o/r.git", "/home/u/.config/r");
    assert_eq!(w.url(), "git@github.com:o/r.git");
    assert_eq!(w.path(), "/home/u/.config/r");
    let e = w.classify_stderr("fatal: not a git repository (or any parent)");
    assert!(matches!(e, GitError::NotARepository(m) if m == "/home/u/.config/r is not a git repo"));
    let e2 = w.classify_stderr("fatal: something else");
    assert!(matches!(e2, GitError::Unknown(m) if m == "/home/u/.config/r: unknown error"));
}

#[test]
fn install_args_map_to_sync_options() {
    let yes = true;
    let force = false;
    let no_scripts = true;
    let args = InstallUpdateArgs { yes: &yes, force: &force, no_scripts: &no_scripts };
    let opts = args.sync_options();
    assert!(opts.skip_confirmation);
    assert!(!opts.force);
    assert!(opts.skip_hooks);
}

#[test]
fn collection_pprint_with_no_members_is_bare() {
    let c = Collection {
        name: String::from("empty"),
        description: String::from("nothing"),
        packages: vec![],
    };
    assert_eq!(c.pprint(), "empty - nothing\n  Packages: ");
}
