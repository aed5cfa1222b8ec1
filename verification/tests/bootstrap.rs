use fatherbox::bootstrap::Account;
use fatherbox::bootstrap::Action;
use fatherbox::bootstrap::BootstrapError;
use fatherbox::bootstrap::DirKind;
use fatherbox::bootstrap::EntityKind;
use fatherbox::bootstrap::Table;
use fatherbox::bootstrap::Workspace;
use fatherbox::bootstrap::World;
use fatherbox::bootstrap::run_bootstrap;

fn fresh_world() -> World {
    World {
        root_dir: false,
        config_dir: false,
        data_dir: false,
        file_dir: false,
        store_file: false,
        schema: false,
        account: None,
        workspace: None,
        account_dir: false,
        workspace_dir: false,
        dir_create_fails: false,
        store_open_fails: false,
        table_create_fails: false,
        lookup_fails: false,
        insert_fails: false,
    }
}

#[test]
fn it_works() {
    assert_eq!(true, "abc.txt".find("a").is_some());
}

#[test]
fn fresh_home_end_to_end() {
    let run = run_bootstrap(fresh_world(), "acct-1".to_string(), "ws-1".to_string(), 42);
    let outcome = run.result.expect("bootstrap on a fresh home must succeed");
    assert_eq!(outcome.account_id, "acct-1");
    assert_eq!(outcome.workspace_id, "ws-1");
    let w = &run.world;
    assert!(w.root_dir && w.config_dir && w.data_dir && w.file_dir);
    assert!(w.store_file && w.schema);
    assert!(w.account_dir && w.workspace_dir);
    let account = w.account.as_ref().expect("default account row present");
    assert_eq!(account.id, "acct-1");
    assert_eq!(account.username, "default");
    assert_eq!(account.password, "123456");
    assert_eq!(account.nickname, "default user");
    assert_eq!(account.provider, "local");
    let workspace = w.workspace.as_ref().expect("default workspace row present");
    assert_eq!(workspace.id, "ws-1");
    assert_eq!(workspace.account_id, "acct-1");
    assert_eq!(workspace.name, "default");
    assert_eq!(workspace.create_time, 42);
    assert_eq!(workspace.update_time, 42);
    assert_eq!(
        run.actions,
        vec![
            Action::CreateDir(DirKind::Root),
            Action::CreateDir(DirKind::Config),
            Action::CreateDir(DirKind::Data),
            Action::CreateDir(DirKind::FileStorage),
            Action::OpenStore,
            Action::CreateTable(Table::Account),
            Action::CreateTable(Table::Workspace),
            Action::CreateTable(Table::FileNode),
            Action::CreateTable(Table::Setting),
            Action::CreateTable(Table::AiSource),
            Action::CreateTable(Table::AiModel),
            Action::LookupAccount,
            Action::CreateAccount,
            Action::CreateDir(DirKind::AccountDir),
            Action::LookupWorkspace,
            Action::CreateWorkspace,
            Action::CreateDir(DirKind::WorkspaceDir),
        ]
    );
}

#[test]
fn second_run_is_idempotent() {
    let first = run_bootstrap(fresh_world(), "acct-1".to_string(), "ws-1".to_string(), 42);
    assert!(first.result.is_ok());
    let second = run_bootstrap(first.world.clone(), "acct-2".to_string(), "ws-2".to_string(), 43);
    let outcome = second.result.expect("second bootstrap run must succeed");
    assert_eq!(outcome.account_id, "acct-1");
    assert_eq!(outcome.workspace_id, "ws-1");
    assert_eq!(second.world, first.world);
    assert_eq!(
        second.actions,
        vec![Action::OpenStore, Action::LookupAccount, Action::LookupWorkspace]
    );
}

#[test]
fn deleted_workspace_dir_is_repaired() {
    let first = run_bootstrap(fresh_world(), "acct-1".to_string(), "ws-1".to_string(), 42);
    let mut damaged = first.world.clone();
    damaged.workspace_dir = false;
    let repair = run_bootstrap(damaged, "acct-2".to_string(), "ws-2".to_string(), 43);
    assert!(repair.result.is_ok());
    assert_eq!(repair.world, first.world);
    assert_eq!(repair.world.workspace, first.world.workspace);
    assert_eq!(
        repair.actions,
        vec![
            Action::OpenStore,
            Action::LookupAccount,
            Action::LookupWorkspace,
            Action::CreateDir(DirKind::WorkspaceDir),
        ]
    );
}

#[test]
fn pre_existing_store_skips_schema_creation() {
    let mut w = fresh_world();
    w.root_dir = true;
    w.config_dir = true;
    w.data_dir = true;
    w.file_dir = true;
    w.store_file = true;
    w.account = Some(Account {
        id: "acct-9".to_string(),
        username: "default".to_string(),
        password: "123456".to_string(),
        nickname: "default user".to_string(),
        provider: "local".to_string(),
    });
    w.workspace = Some(Workspace {
        id: "ws-9".to_string(),
        account_id: "acct-9".to_string(),
        name: "default".to_string(),
        create_time: 1,
        update_time: 1,
    });
    w.account_dir = true;
    w.workspace_dir = true;
    let before = w.clone();
    let run = run_bootstrap(w, "acct-new".to_string(), "ws-new".to_string(), 44);
    assert!(run.result.is_ok());
    assert!(run.actions.iter().all(|a| !matches!(a, Action::CreateTable(_))));
    assert_eq!(run.world.account, before.account);
    assert_eq!(run.world.workspace, before.workspace);
}

#[test]
fn read_only_home_fails_before_store_creation() {
    let mut w = fresh_world();
    w.dir_create_fails = true;
    let run = run_bootstrap(w, "acct-1".to_string(), "ws-1".to_string(), 42);
    assert_eq!(run.result.unwrap_err(), BootstrapError::PathError(DirKind::Root));
    assert!(!run.world.store_file);
    assert!(!run.world.root_dir);
    assert_eq!(run.actions, vec![Action::CreateDir(DirKind::Root)]);
}

#[test]
fn store_open_failure_is_fatal() {
    let mut w = fresh_world();
    w.store_open_fails = true;
    let run = run_bootstrap(w, "acct-1".to_string(), "ws-1".to_string(), 42);
    assert_eq!(run.result.unwrap_err(), BootstrapError::StoreConnectionError);
    assert!(!run.world.store_file);
    assert!(run.world.root_dir && run.world.config_dir && run.world.data_dir && run.world.file_dir);
}

#[test]
fn table_creation_failure_leaves_broken_store() {
    let mut w = fresh_world();
    w.table_create_fails = true;
    let run = run_bootstrap(w, "acct-1".to_string(), "ws-1".to_string(), 42);
    assert_eq!(run.result.unwrap_err(), BootstrapError::SchemaError(Table::Account));
    assert!(run.world.store_file);
    assert!(!run.world.schema);
}

#[test]
fn lookup_failure_is_fatal() {
    let mut w = fresh_world();
    w.lookup_fails = true;
    let run = run_bootstrap(w, "acct-1".to_string(), "ws-1".to_string(), 42);
    assert_eq!(run.result.unwrap_err(), BootstrapError::LookupError(EntityKind::Account));
    assert!(run.world.account.is_none());
}

#[test]
fn account_insert_failure_is_fatal() {
    let mut w = fresh_world();
    w.insert_fails = true;
    let run = run_bootstrap(w, "acct-1".to_string(), "ws-1".to_string(), 42);
    assert_eq!(run.result.unwrap_err(), BootstrapError::CreationError(EntityKind::Account));
    assert!(run.world.account.is_none());
}

#[test]
fn workspace_insert_failure_is_fatal() {
    let mut w = fresh_world();
    w.store_file = true;
    w.schema = true;
    w.account = Some(Account {
        id: "acct-9".to_string(),
        username: "default".to_string(),
        password: "123456".to_string(),
        nickname: "default user".to_string(),
        provider: "local".to_string(),
    });
    w.insert_fails = true;
    let run = run_bootstrap(w, "acct-new".to_string(), "ws-new".to_string(), 44);
    assert_eq!(run.result.unwrap_err(), BootstrapError::CreationError(EntityKind::Workspace));
    assert!(run.world.workspace.is_none());
}

#[test]
fn fixed_layout_names() {
    assert_eq!(fatherbox::names::root_dir_name(), ".fatherbox");
    assert_eq!(fatherbox::names::config_dir_name(), "config");
    assert_eq!(fatherbox::names::data_dir_name(), "data");
    assert_eq!(fatherbox::names::file_dir_name(), "files");
    assert_eq!(fatherbox::names::data_db_name(), "data.db");
    assert_eq!(fatherbox::names::default_workspace_name(), "default");
    assert_eq!(fatherbox::names::default_username(), "default");
    assert_eq!(fatherbox::names::default_password(), "123456");
    assert_eq!(fatherbox::names::default_nickname(), "default user");
    assert_eq!(fatherbox::names::provider_local(), "local");
    assert_eq!(fatherbox::names::file_kind(), "file");
    assert_eq!(fatherbox::names::dir_kind(), "directory");
}
