use flox_sdk::access::Closed;
use flox_sdk::flox::Flox;
use flox_sdk::guard::Guard;
use flox_sdk::index::{FileAction, Index};
use flox_sdk::package::{InitFloxPackageError, PackageStep, TemplateProbe};
use flox_sdk::paths::{join_path, parent_of};
use flox_sdk::project::Root;
use flox_sdk::transaction::{
    sandbox_entry_dest, CommitStep, SandboxPrep,
};

fn sample_flox() -> Flox {
    Flox::new(
        "x86_64-linux".to_string(),
        "/tmp".to_string(),
        "/tmp/cache".to_string(),
        "/tmp/config".to_string(),
    )
}

fn sandboxed_project<'a>(
    flox: &'a Flox,
    origin: &str,
    sandbox: &str,
) -> (
    flox_sdk::project::Project<'a, u32, flox_sdk::access::GitSandBox<u32>>,
    Index,
) {
    let root = Root {
        flox,
        state: Closed::new(9u32),
    };
    let guard = root.guard(Some(origin.to_string()), true).unwrap();
    let project = match guard {
        Guard::Initialized(p) => p,
        Guard::Uninitialized(_) => panic!("manifest present: must be initialized"),
    };
    let handle = tempfile::TempDir::new().unwrap();
    project
        .enter_transaction(Ok(SandboxPrep {
            temp_dir: sandbox.to_string(),
            git: 9u32,
            handle,
        }))
        .unwrap()
}

#[test]
fn index_retains_only_the_last_action_per_path() {
    let mut index = Index::new();
    index.insert("flox.nix".to_string(), FileAction::Add);
    index.insert("flox.nix".to_string(), FileAction::Delete);
    assert_eq!(index.len(), 1);
    assert_eq!(
        index.get(&"flox.nix".to_string()),
        Some(FileAction::Delete)
    );
}

#[test]
fn index_keeps_insertion_order_of_distinct_paths() {
    let mut index = Index::new();
    index.insert("b.txt".to_string(), FileAction::Add);
    index.insert("a.txt".to_string(), FileAction::Delete);
    index.insert("b.txt".to_string(), FileAction::Delete);
    assert_eq!(index.len(), 2);
    assert_eq!(index.entries[0].0, "b.txt");
    assert_eq!(index.entries[0].1, FileAction::Delete);
    assert_eq!(index.entries[1].0, "a.txt");
    assert_eq!(index.get(&"c.txt".to_string()), None);
}

#[test]
fn join_path_and_parent_of_follow_the_path_model() {
    assert_eq!(join_path("/repo", "pkgs/default.nix"), "/repo/pkgs/default.nix");
    assert_eq!(parent_of("pkgs/default.nix"), Some("pkgs".to_string()));
    assert_eq!(parent_of("a/b/c"), Some("a/b".to_string()));
    assert_eq!(parent_of("flox.nix"), None);
}

#[test]
fn sandbox_entry_dest_moves_entries_under_the_sandbox() {
    assert_eq!(
        sandbox_entry_dest("/sb", "/repo", "/repo/pkgs/x.nix"),
        Some("/sb/pkgs/x.nix".to_string())
    );
    assert_eq!(sandbox_entry_dest("/sb", "/repo", "/repo"), None);
    assert_eq!(sandbox_entry_dest("/sb", "/repo", "/elsewhere/x"), None);
}

#[test]
fn commit_plan_applies_entries_in_index_order() {
    let flox = sample_flox();
    let (sandboxed, mut index) = sandboxed_project(&flox, "/repo", "/sb");
    index.insert("pkgs/default/flox.nix".to_string(), FileAction::Add);
    index.insert("old.txt".to_string(), FileAction::Delete);

    let plan = sandboxed.commit_plan(&index);
    assert_eq!(plan.len(), 4);
    assert!(matches!(&plan[0], CommitStep::CreateDirAll(p) if p == "/repo/pkgs/default"));
    assert!(matches!(&plan[1], CommitStep::Rename(from, to)
        if from == "/sb/pkgs/default/flox.nix" && to == "/repo/pkgs/default/flox.nix"));
    assert!(matches!(&plan[2], CommitStep::GitAdd(p) if p == "pkgs/default/flox.nix"));
    assert!(matches!(&plan[3], CommitStep::GitRemove(p) if p == "old.txt"));
}

#[test]
fn commit_plan_skips_parent_creation_for_root_level_files() {
    let flox = sample_flox();
    let (sandboxed, mut index) = sandboxed_project(&flox, "/repo", "/sb");
    index.insert("flox.nix".to_string(), FileAction::Add);
    let plan = sandboxed.commit_plan(&index);
    assert_eq!(plan.len(), 2);
    assert!(matches!(&plan[0], CommitStep::Rename(from, to)
        if from == "/sb/flox.nix" && to == "/repo/flox.nix"));
    assert!(matches!(&plan[1], CommitStep::GitAdd(p) if p == "flox.nix"));
}

#[test]
fn expression_builders_quote_system_and_name() {
    assert_eq!(
        flox_sdk::environment::environment_exists_expr("x86_64-linux", "default"),
        "systems: (systems.\"x86_64-linux\" or {}) ? \"default\""
    );
    assert_eq!(
        flox_sdk::environment::environments_list_expr("x86_64-linux"),
        "systems: builtins.attrNames (systems.\"x86_64-linux\" or {})"
    );
    assert_eq!(flox_sdk::environment::environments_attr_path(), "floxEnvs");
}

#[test]
fn init_flox_package_rewrites_the_legacy_template() {
    let flox = sample_flox();
    let (sandboxed, _) = sandboxed_project(&flox, "/repo", "/sb");
    let steps = sandboxed
        .init_flox_package(
            &"flox#templates.rust".to_string(),
            "hello",
            Ok(()),
            TemplateProbe::LegacyTemplate("{\n  pname = \"unnamed\";\n}\n".to_string()),
        )
        .unwrap();
    assert_eq!(steps.len(), 4);
    assert!(matches!(&steps[0], PackageStep::CreateDirAll(p) if p == "/sb/pkgs/hello"));
    assert!(matches!(&steps[1], PackageStep::GitRemoveFile(p) if p == "/sb/pkgs/default.nix"));
    assert!(matches!(&steps[2], PackageStep::WriteFile(p, c)
        if p == "/sb/pkgs/hello/default.nix" && c == "{\n  pname = \"hello\";\n}\n"));
    assert!(matches!(&steps[3], PackageStep::GitAdd(p) if p == "/sb/pkgs/hello/default.nix"));
}

#[test]
fn init_flox_package_renames_the_placeholder_directory() {
    let flox = sample_flox();
    let (sandboxed, _) = sandboxed_project(&flox, "/repo", "/sb");
    let steps = sandboxed
        .init_flox_package(
            &"flox#templates.rust".to_string(),
            "hello",
            Ok(()),
            TemplateProbe::NoTemplateFile(true),
        )
        .unwrap();
    assert_eq!(steps.len(), 3);
    assert!(matches!(&steps[0], PackageStep::GitMove(from, to)
        if from == "/sb/pkgs/__PACKAGE_NAME__" && to == "/sb/pkgs/hello"));
    assert!(matches!(&steps[1], PackageStep::ReplacePlaceholder(p) if p == "/sb/pkgs/hello"));
    assert!(matches!(&steps[2], PackageStep::GitAdd(p) if p == "/sb/pkgs/hello"));
}

#[test]
fn init_flox_package_stages_the_project_template_manifest() {
    let flox = sample_flox();
    let (sandboxed, _) = sandboxed_project(&flox, "/repo", "/sb");

    let steps = sandboxed
        .init_flox_package(
            &"flake:flox#.\"templates\".\"project\"".to_string(),
            "hello",
            Ok(()),
            TemplateProbe::NoTemplateFile(false),
        )
        .unwrap();
    assert_eq!(steps.len(), 1);
    assert!(matches!(&steps[0], PackageStep::GitAdd(p) if p == "/sb/flox.nix"));

    let steps = sandboxed
        .init_flox_package(
            &"flox#templates.rust".to_string(),
            "hello",
            Ok(()),
            TemplateProbe::NoTemplateFile(false),
        )
        .unwrap();
    assert!(steps.is_empty());
}

#[test]
fn init_flox_package_surfaces_failures() {
    let flox = sample_flox();
    let (sandboxed, _) = sandboxed_project(&flox, "/repo", "/sb");

    let err = sandboxed
        .init_flox_package(
            &"t".to_string(),
            "hello",
            Err("nix broke".to_string()),
            TemplateProbe::NoTemplateFile(false),
        )
        .unwrap_err();
    assert!(matches!(err, InitFloxPackageError::NixInit(m) if m == "nix broke"));

    let err = sandboxed
        .init_flox_package(
            &"t".to_string(),
            "hello",
            Ok(()),
            TemplateProbe::ProbeFailed("permission denied".to_string()),
        )
        .unwrap_err();
    assert!(matches!(err, InitFloxPackageError::OpenTemplateFile(m) if m == "permission denied"));

    let err = sandboxed
        .init_flox_package(
            &"t".to_string(),
            "hello",
            Ok(()),
            TemplateProbe::ReadFailed("bad encoding".to_string()),
        )
        .unwrap_err();
    assert!(matches!(err, InitFloxPackageError::ReadTemplateFile(m) if m == "bad encoding"));
}

#[test]
fn expand_package_name_replaces_every_placeholder() {
    let contents = "name = __PACKAGE_NAME__; desc = \"__PACKAGE_NAME__ tool\";"
        .as_bytes()
        .to_vec();
    let name = "hello".as_bytes().to_vec();
    let out = flox_sdk::package::expand_package_name(&contents, &name);
    assert_eq!(
        String::from_utf8(out).unwrap(),
        "name = hello; desc = \"hello tool\";"
    );

    let untouched = "no placeholder here".as_bytes().to_vec();
    let out = flox_sdk::package::expand_package_name(&untouched, &name);
    assert_eq!(String::from_utf8(out).unwrap(), "no placeholder here");

    let empty: Vec<u8> = Vec::new();
    let out = flox_sdk::package::expand_package_name(&empty, &name);
    assert!(out.is_empty());
}

#[test]
fn placeholder_bytes_spell_the_placeholder() {
    assert_eq!(
        String::from_utf8(flox_sdk::package::placeholder_bytes()).unwrap(),
        "__PACKAGE_NAME__"
    );
}
