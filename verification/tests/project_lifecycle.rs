use flox_sdk::access::Closed;
use flox_sdk::environment::GetEnvironmentsError;
use flox_sdk::flox::Flox;
use flox_sdk::guard::Guard;
use flox_sdk::index::FileAction;
use flox_sdk::project::{OpenProjectError, Project, Root};
use flox_sdk::transaction::{
    CommitStep, SandboxPrep, TransactionCommitError, TransactionEnterError,
};

fn sample_flox() -> Flox {
    Flox::new(
        "aarch64-darwin".to_string(),
        "/tmp".to_string(),
        "/tmp/cache".to_string(),
        "/tmp/config".to_string(),
    )
}

fn closed_root(flox: &Flox) -> Root<'_, Closed<u32>> {
    Root {
        flox,
        state: Closed::new(1u32),
    }
}

#[test]
fn fail_without_git() {
    let flox = sample_flox();
    let root = closed_root(&flox);
    let err = root
        .guard(None, false)
        .expect_err("should find empty dir");
    assert_eq!(err, OpenProjectError::WorkdirNotFound);
}

#[test]
fn fail_without_flake_nix() {
    let flox = sample_flox();
    let root = closed_root(&flox);
    let guard = root
        .guard(Some("/repo/proj".to_string()), false)
        .expect("Finding dir should succeed");
    assert!(matches!(guard, Guard::Uninitialized(_)));
}

#[test]
fn create_project() {
    let flox = sample_flox();
    let root = closed_root(&flox);
    let guard = root
        .guard(Some("/repo/proj".to_string()), false)
        .expect("Finding dir should succeed");
    assert!(guard.needs_init());

    let project = guard
        .init_project(Some("/repo/proj".to_string()), Ok(()), Ok(()))
        .expect("Should init a new project");
    assert_eq!(project.workdir, "/repo/proj");

    let empty: serde_json::Value = serde_json::from_str("[]").unwrap();
    let envs = project
        .environments(Ok(empty))
        .expect("should find empty floxEnvs");
    assert!(envs.is_empty());

    let handle = tempfile::TempDir::new().unwrap();
    let sandbox_path = handle.path().to_string_lossy().to_string();
    let (sandboxed, mut index) = project
        .enter_transaction(Ok(SandboxPrep {
            temp_dir: sandbox_path.clone(),
            git: 1u32,
            handle,
        }))
        .expect("Should be able to make sandbox");

    let (target, contents) = sandboxed.create_default_env(&mut index);
    assert_eq!(target, format!("{}/flox.nix", sandbox_path));
    assert_eq!(contents, "{ }\n");
    assert_eq!(index.get(&"flox.nix".to_string()), Some(FileAction::Add));

    let plan = sandboxed.commit_plan(&index);
    assert!(plan
        .iter()
        .any(|s| matches!(s, CommitStep::GitAdd(p) if p == "flox.nix")));
    assert!(plan.iter().any(
        |s| matches!(s, CommitStep::Rename(from, to) if *from == format!("{}/flox.nix", sandbox_path)
            && *to == "/repo/proj/flox.nix")
    ));

    let project = sandboxed
        .commit_transaction(index, "unused", Ok(()))
        .expect("Should commit transaction");
    assert_eq!(project.workdir, "/repo/proj");

    let env = project
        .environment("default", Ok(serde_json::Value::Bool(true)))
        .unwrap()
        .expect("should find new environment");
    assert_eq!(env.name, "default");
    assert_eq!(env.system, "aarch64-darwin");
    assert_eq!(env.project.workdir, "/repo/proj");
}

#[test]
fn guard_is_repeatable_on_uninitialized_roots() {
    let flox = sample_flox();
    let root = closed_root(&flox);
    let guard = root.guard(Some("/a/b".to_string()), false).unwrap();
    let root_back = match guard {
        Guard::Uninitialized(r) => r,
        Guard::Initialized(_) => panic!("no manifest: must be uninitialized"),
    };
    assert_eq!(root_back.state.inner, 1u32);
    let second = root_back.guard(Some("/a/b".to_string()), false).unwrap();
    assert!(matches!(second, Guard::Uninitialized(_)));
}

#[test]
fn init_project_is_idempotent() {
    let flox = sample_flox();
    let root = closed_root(&flox);
    let guard = root.guard(Some("/repo".to_string()), true).unwrap();
    assert!(!guard.needs_init());
    let project = guard
        .init_project(None, Err("never run".to_string()), Err("never run".to_string()))
        .expect("already initialized: other arguments are ignored");
    assert_eq!(project.workdir, "/repo");
}

#[test]
fn init_project_propagates_failures() {
    let flox = sample_flox();

    let g = closed_root(&flox).guard(Some("/r".to_string()), false).unwrap();
    let err = g.init_project(None, Ok(()), Ok(())).unwrap_err();
    assert!(matches!(
        err,
        flox_sdk::project::InitProjectError::WorkdirNotFound
    ));

    let g = closed_root(&flox).guard(Some("/r".to_string()), false).unwrap();
    let err = g
        .init_project(Some("/r".to_string()), Err("nix failed".to_string()), Ok(()))
        .unwrap_err();
    assert!(matches!(
        err,
        flox_sdk::project::InitProjectError::NixInitBase(m) if m == "nix failed"
    ));

    let g = closed_root(&flox).guard(Some("/r".to_string()), false).unwrap();
    let err = g
        .init_project(Some("/r".to_string()), Ok(()), Err("add failed".to_string()))
        .unwrap_err();
    assert!(matches!(
        err,
        flox_sdk::project::InitProjectError::GitAdd(m) if m == "add failed"
    ));
}

fn read_only_project(flox: &Flox) -> Project<'_, u32, flox_sdk::access::ReadOnly<u32>> {
    let guard = closed_root(flox)
        .guard(Some("/repo".to_string()), true)
        .unwrap();
    match guard {
        Guard::Initialized(p) => p,
        Guard::Uninitialized(_) => panic!("manifest present: must be initialized"),
    }
}

#[test]
fn workdir_and_flakeref_name_the_tree_root() {
    let flox = sample_flox();
    let p = read_only_project(&flox);
    assert_eq!(p.workdir(), Some(&"/repo".to_string()));
    assert_eq!(p.flakeref(), "/repo");
}

#[test]
fn environment_reports_evaluator_failures() {
    let flox = sample_flox();
    let p = read_only_project(&flox);

    let err = p
        .environment("default", Err("eval broke".to_string()))
        .unwrap_err();
    assert!(matches!(err, GetEnvironmentsError::ListEnvironments(m) if m == "eval broke"));

    let err = p
        .environment("default", Ok(serde_json::Value::Null))
        .unwrap_err();
    assert!(matches!(err, GetEnvironmentsError::Decode));

    let missing = p
        .environment("default", Ok(serde_json::Value::Bool(false)))
        .unwrap();
    assert!(missing.is_none());
}

#[test]
fn environments_lists_names_in_discovery_order() {
    let flox = sample_flox();
    let p = read_only_project(&flox);

    let names: serde_json::Value = serde_json::from_str("[\"default\", \"dev\"]").unwrap();
    let envs = p.environments(Ok(names)).unwrap();
    assert_eq!(envs.len(), 2);
    assert_eq!(envs[0].name, "default");
    assert_eq!(envs[1].name, "dev");
    assert_eq!(envs[0].system, "aarch64-darwin");

    let err = p
        .environments(Ok(serde_json::Value::Bool(true)))
        .unwrap_err();
    assert!(matches!(err, GetEnvironmentsError::Decode));

    let err = p.environments(Err("no evaluator".to_string())).unwrap_err();
    assert!(matches!(err, GetEnvironmentsError::ListEnvironments(m) if m == "no evaluator"));
}

#[test]
fn enter_transaction_surfaces_preparation_failures() {
    let flox = sample_flox();
    let p = read_only_project(&flox);
    let err = p
        .enter_transaction(Err(TransactionEnterError::CreateTempdir(
            "disk full".to_string(),
        )))
        .unwrap_err();
    assert!(matches!(err, TransactionEnterError::CreateTempdir(m) if m == "disk full"));
}

#[test]
fn sandbox_writes_stay_out_of_the_original_tree() {
    let flox = sample_flox();
    let p = read_only_project(&flox);
    let handle = tempfile::TempDir::new().unwrap();
    let (sandboxed, mut index) = p
        .enter_transaction(Ok(SandboxPrep {
            temp_dir: "/sb".to_string(),
            git: 1u32,
            handle,
        }))
        .unwrap();
    assert_eq!(index.len(), 0);
    let (target, _) = sandboxed.create_default_env(&mut index);
    assert!(target.starts_with("/sb/"));
    assert!(!target.starts_with("/repo"));
}

#[test]
fn cleanup_flox_names_the_failed_step() {
    let flox = sample_flox();

    let p = read_only_project(&flox);
    let err = p
        .cleanup_flox(Err("no pkgs".to_string()), Ok(()))
        .unwrap_err();
    assert!(matches!(
        err,
        flox_sdk::project::CleanupInitializerError::RemovePkgs(m) if m == "no pkgs"
    ));

    let p = read_only_project(&flox);
    let err = p
        .cleanup_flox(Ok(()), Err("no manifest".to_string()))
        .unwrap_err();
    assert!(matches!(
        err,
        flox_sdk::project::CleanupInitializerError::RemoveFlake(m) if m == "no manifest"
    ));

    let p = read_only_project(&flox);
    assert!(p.cleanup_flox(Ok(()), Ok(())).is_ok());
}

#[test]
fn guard_after_init_reports_initialized() {
    let flox = sample_flox();
    let root = closed_root(&flox);
    let guard = root.guard(Some("/repo".to_string()), false).unwrap();
    assert!(guard.needs_init());
    let project = guard
        .init_project(Some("/repo".to_string()), Ok(()), Ok(()))
        .unwrap();
    assert_eq!(project.workdir, "/repo");

    let root = closed_root(&flox);
    let guard = root.guard(Some("/repo".to_string()), true).unwrap();
    assert!(!guard.needs_init());
    let again = guard
        .init_project(None, Err("never run".to_string()), Err("never run".to_string()))
        .expect("second initialization hands the project back untouched");
    assert_eq!(again.workdir, "/repo");
}


#[test]
fn commit_transaction_surfaces_the_failed_step() {
    let flox = sample_flox();
    let p = read_only_project(&flox);
    let handle = tempfile::TempDir::new().unwrap();
    let (sandboxed, mut index) = p
        .enter_transaction(Ok(SandboxPrep {
            temp_dir: "/sb".to_string(),
            git: 1u32,
            handle,
        }))
        .unwrap();
    index.insert("flox.nix".to_string(), FileAction::Add);
    let err = sandboxed
        .commit_transaction(
            index,
            "unused",
            Err(TransactionCommitError::RenameFile("no space".to_string())),
        )
        .unwrap_err();
    assert!(matches!(err, TransactionCommitError::RenameFile(m) if m == "no space"));
}
