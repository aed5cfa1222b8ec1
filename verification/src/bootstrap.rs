//! The idempotent first-run provisioning pipeline, verified over a model of
//! the environment.
//!
//! All real work of the pipeline is filesystem and store I/O that the
//! surrounding application performs. The decisions, their order and their
//! error policy are this module's: a [`World`] value describes what the
//! application observed (which directories exist, whether the store file
//! exists, which default rows are present, and which classes of outside
//! calls fail), and [`run_bootstrap`] computes the resulting world, the
//! exact trace of provisioning calls to perform, and the outcome. The
//! application executes the trace in order and exits non-zero on any error.
//!
//! The model deliberately keeps the known looseness of the design it
//! describes: the default-workspace lookup is by name alone, not scoped to
//! the owning account, and a store file left behind by a failed first run
//! makes later runs skip schema creation entirely.

use vstd::prelude::*;

use crate::names::spec_default_nickname;
use crate::names::spec_default_password;
use crate::names::spec_default_username;
use crate::names::spec_default_workspace_name;
use crate::names::spec_provider_local;

verus! {

/// One directory of the fixed layout under the user's home.
#[derive(Clone, Copy, Debug, PartialEq, Eq, Structural)]
pub enum DirKind {
    /// The application's root directory.
    Root,
    /// The configuration subdirectory.
    Config,
    /// The data subdirectory holding the store file.
    Data,
    /// The file-storage subdirectory.
    FileStorage,
    /// The default account's directory under file storage.
    AccountDir,
    /// The default workspace's directory under the account's directory.
    WorkspaceDir,
}

/// One entity table of the store schema, in dependency order.
#[derive(Clone, Copy, Debug, PartialEq, Eq, Structural)]
pub enum Table {
    Account,
    Workspace,
    FileNode,
    Setting,
    AiSource,
    AiModel,
}

/// The two entities the pipeline looks up and creates.
#[derive(Clone, Copy, Debug, PartialEq, Eq, Structural)]
pub enum EntityKind {
    Account,
    Workspace,
}

/// One outside call the pipeline asks the application to perform.
#[derive(Clone, Copy, Debug, PartialEq, Eq, Structural)]
pub enum Action {
    /// Create one directory of the fixed layout.
    CreateDir(DirKind),
    /// Open (creating if absent) the embedded store file.
    OpenStore,
    /// Create one entity table in the freshly created store.
    CreateTable(Table),
    /// Look the default account up by login name and provider.
    LookupAccount,
    /// Insert the default account row.
    CreateAccount,
    /// Look the default workspace up by its reserved name.
    LookupWorkspace,
    /// Insert the default workspace row.
    CreateWorkspace,
}

/// Why bootstrap stopped. Every error is fatal to startup.
#[derive(Clone, Copy, Debug, PartialEq, Eq, Structural)]
pub enum BootstrapError {
    /// A directory of the fixed layout could not be created.
    PathError(DirKind),
    /// The embedded store file could not be opened or created.
    StoreConnectionError,
    /// A table could not be created on first run.
    SchemaError(Table),
    /// A lookup failed in the query layer ("not found" is not an error).
    LookupError(EntityKind),
    /// An insert failed, among them a uniqueness violation.
    CreationError(EntityKind),
}

/// The default account row, as the store holds it.
#[derive(Clone, Debug, PartialEq, Eq)]
pub struct Account {
    pub id: String,
    pub username: String,
    /// Credential as handed to the account-creation routine, which hashes
    /// it before persisting.
    pub password: String,
    pub nickname: String,
    pub provider: String,
}

/// Spec-level image of an [`Account`].
#[verifier::ext_equal]
pub struct AccountModel {
    pub id: Seq<char>,
    pub username: Seq<char>,
    pub password: Seq<char>,
    pub nickname: Seq<char>,
    pub provider: Seq<char>,
}

impl View for Account {
    type V = AccountModel;

    open spec fn view(&self) -> AccountModel {
        AccountModel {
            id: self.id@,
            username: self.username@,
            password: self.password@,
            nickname: self.nickname@,
            provider: self.provider@,
        }
    }
}

/// The default workspace row, as the store holds it.
#[derive(Clone, Debug, PartialEq, Eq)]
pub struct Workspace {
    pub id: String,
    pub account_id: String,
    pub name: String,
    pub create_time: i64,
    pub update_time: i64,
}

/// Spec-level image of a [`Workspace`].
#[verifier::ext_equal]
pub struct WorkspaceModel {
    pub id: Seq<char>,
    pub account_id: Seq<char>,
    pub name: Seq<char>,
    pub create_time: int,
    pub update_time: int,
}

impl View for Workspace {
    type V = WorkspaceModel;

    open spec fn view(&self) -> WorkspaceModel {
        WorkspaceModel {
            id: self.id@,
            account_id: self.account_id@,
            name: self.name@,
            create_time: self.create_time as int,
            update_time: self.update_time as int,
        }
    }
}

/// What the application observed of the environment before bootstrap, and
/// which classes of outside calls fail in it.
///
/// The five `*_fails` fields describe the environment's behaviour, not a
/// wish: a run against a read-only home is a `World` whose
/// `dir_create_fails` is true. A created store connection is modelled by
/// `store_file` alone; `schema` says whether the six entity tables were
/// ever created in it (a store file left by a run that failed between file
/// creation and schema creation has `store_file` without `schema`).
#[derive(Clone, Debug, PartialEq, Eq)]
pub struct World {
    /// The application's root directory exists.
    pub root_dir: bool,
    /// The configuration subdirectory exists.
    pub config_dir: bool,
    /// The data subdirectory exists.
    pub data_dir: bool,
    /// The file-storage subdirectory exists.
    pub file_dir: bool,
    /// The store file exists.
    pub store_file: bool,
    /// The entity tables were created in the store.
    pub schema: bool,
    /// The default account row, if present.
    pub account: Option<Account>,
    /// The default workspace row, if present.
    pub workspace: Option<Workspace>,
    /// A directory named after the default account's identifier exists
    /// under file storage.
    pub account_dir: bool,
    /// A directory named after the default workspace's identifier exists
    /// under the account's directory.
    pub workspace_dir: bool,
    /// Directory creation fails (permission denied, disk full).
    pub dir_create_fails: bool,
    /// Opening or creating the store file fails.
    pub store_open_fails: bool,
    /// Table creation fails.
    pub table_create_fails: bool,
    /// Row lookups fail in the query layer.
    pub lookup_fails: bool,
    /// Row inserts fail.
    pub insert_fails: bool,
}

/// Spec-level image of a [`World`].
#[verifier::ext_equal]
pub struct WorldModel {
    pub root_dir: bool,
    pub config_dir: bool,
    pub data_dir: bool,
    pub file_dir: bool,
    pub store_file: bool,
    pub schema: bool,
    pub account: Option<AccountModel>,
    pub workspace: Option<WorkspaceModel>,
    pub account_dir: bool,
    pub workspace_dir: bool,
    pub dir_create_fails: bool,
    pub store_open_fails: bool,
    pub table_create_fails: bool,
    pub lookup_fails: bool,
    pub insert_fails: bool,
}

impl View for World {
    type V = WorldModel;

    open spec fn view(&self) -> WorldModel {
        WorldModel {
            root_dir: self.root_dir,
            config_dir: self.config_dir,
            data_dir: self.data_dir,
            file_dir: self.file_dir,
            store_file: self.store_file,
            schema: self.schema,
            account: match self.account {
                Option::Some(a) => Option::Some(a@),
                Option::None => Option::None,
            },
            workspace: match self.workspace {
                Option::Some(w) => Option::Some(w@),
                Option::None => Option::None,
            },
            account_dir: self.account_dir,
            workspace_dir: self.workspace_dir,
            dir_create_fails: self.dir_create_fails,
            store_open_fails: self.store_open_fails,
            table_create_fails: self.table_create_fails,
            lookup_fails: self.lookup_fails,
            insert_fails: self.insert_fails,
        }
    }
}

impl WorldModel {
    /// A world that can physically occur: a per-entity directory cannot
    /// exist before the entity whose identifier names it, the workspace
    /// directory lies inside the account directory, rows and schema live
    /// inside the store file, and stored identifiers are non-empty.
    pub open spec fn wf(self) -> bool {
        &&& (self.account is None ==> !self.account_dir)
        &&& (self.workspace is None ==> !self.workspace_dir)
        &&& (self.workspace_dir ==> self.account_dir)
        &&& (self.schema ==> self.store_file)
        &&& (self.account is Some ==> self.store_file)
        &&& (self.workspace is Some ==> self.store_file)
        &&& (self.account matches Some(a) ==> a.id.len() > 0)
        &&& (self.workspace matches Some(w) ==> w.id.len() > 0)
    }

    /// Nothing of the application's state exists yet: a fresh home.
    pub open spec fn fresh_home(self) -> bool {
        &&& !self.root_dir
        &&& !self.config_dir
        &&& !self.data_dir
        &&& !self.file_dir
        &&& !self.store_file
        &&& !self.schema
        &&& self.account is None
        &&& self.workspace is None
        &&& !self.account_dir
        &&& !self.workspace_dir
    }

    /// No outside call fails in this world.
    pub open spec fn fault_free(self) -> bool {
        &&& !self.dir_create_fails
        &&& !self.store_open_fails
        &&& !self.table_create_fails
        &&& !self.lookup_fails
        &&& !self.insert_fails
    }

    /// Everything bootstrap guarantees is in place.
    pub open spec fn fully_provisioned(self) -> bool {
        &&& self.root_dir
        &&& self.config_dir
        &&& self.data_dir
        &&& self.file_dir
        &&& self.store_file
        &&& self.account is Some
        &&& self.workspace is Some
        &&& self.account_dir
        &&& self.workspace_dir
    }

    /// Whether the directory of the given kind exists.
    pub open spec fn dir_exists(self, k: DirKind) -> bool {
        match k {
            DirKind::Root => self.root_dir,
            DirKind::Config => self.config_dir,
            DirKind::Data => self.data_dir,
            DirKind::FileStorage => self.file_dir,
            DirKind::AccountDir => self.account_dir,
            DirKind::WorkspaceDir => self.workspace_dir,
        }
    }

    /// The same world with the directory of the given kind present.
    pub open spec fn with_dir(self, k: DirKind) -> WorldModel {
        match k {
            DirKind::Root => WorldModel { root_dir: true, ..self },
            DirKind::Config => WorldModel { config_dir: true, ..self },
            DirKind::Data => WorldModel { data_dir: true, ..self },
            DirKind::FileStorage => WorldModel { file_dir: true, ..self },
            DirKind::AccountDir => WorldModel { account_dir: true, ..self },
            DirKind::WorkspaceDir => WorldModel { workspace_dir: true, ..self },
        }
    }
}

/// The default account row created on first run, under the given fresh
/// identifier.
pub open spec fn spec_default_account(id: Seq<char>) -> AccountModel {
    AccountModel {
        id: id,
        username: spec_default_username(),
        password: spec_default_password(),
        nickname: spec_default_nickname(),
        provider: spec_provider_local(),
    }
}

/// The default workspace row created on first run: owned by the given
/// account, carrying the reserved name, stamped with the given time.
pub open spec fn spec_default_workspace(
    id: Seq<char>,
    account_id: Seq<char>,
    now: int,
) -> WorkspaceModel {
    WorkspaceModel {
        id: id,
        account_id: account_id,
        name: spec_default_workspace_name(),
        create_time: now,
        update_time: now,
    }
}

/// Check-then-create for one directory: an existing directory is a no-op,
/// a missing one is created, and a failing creation is a fatal
/// [`BootstrapError::PathError`] that leaves the world unchanged.
pub open spec fn spec_ensure_dir(w: WorldModel, k: DirKind) -> (
    WorldModel,
    Seq<Action>,
    Option<BootstrapError>,
) {
    if w.dir_exists(k) {
        (w, Seq::<Action>::empty(), Option::<BootstrapError>::None)
    } else if w.dir_create_fails {
        (w, seq![Action::CreateDir(k)], Option::Some(BootstrapError::PathError(k)))
    } else {
        (w.with_dir(k), seq![Action::CreateDir(k)], Option::<BootstrapError>::None)
    }
}

/// The path-provisioning phase: root, config, data and file-storage
/// directories, in that order, stopping at the first failure.
pub open spec fn spec_provision_paths(w: WorldModel) -> (
    WorldModel,
    Seq<Action>,
    Option<BootstrapError>,
) {
    let r = spec_ensure_dir(w, DirKind::Root);
    if r.2 is Some {
        r
    } else {
        let c = spec_ensure_dir(r.0, DirKind::Config);
        if c.2 is Some {
            (c.0, r.1 + c.1, c.2)
        } else {
            let d = spec_ensure_dir(c.0, DirKind::Data);
            if d.2 is Some {
                (d.0, r.1 + c.1 + d.1, d.2)
            } else {
                let f = spec_ensure_dir(d.0, DirKind::FileStorage);
                (f.0, r.1 + c.1 + d.1 + f.1, f.2)
            }
        }
    }
}

/// The six tables of the schema, in dependency order.
pub open spec fn spec_schema_tables() -> Seq<Action> {
    seq![
        Action::CreateTable(Table::Account),
        Action::CreateTable(Table::Workspace),
        Action::CreateTable(Table::FileNode),
        Action::CreateTable(Table::Setting),
        Action::CreateTable(Table::AiSource),
        Action::CreateTable(Table::AiModel),
    ]
}

/// The store-initialisation phase: open the store (creating the file when
/// absent); on first creation, create every entity table in dependency
/// order. A pre-existing store file skips table creation entirely. A
/// failing table creation leaves the fresh store file behind without its
/// schema — the documented broken-store case.
pub open spec fn spec_init_data_db(w: WorldModel) -> (
    WorldModel,
    Seq<Action>,
    Option<BootstrapError>,
) {
    if w.store_open_fails {
        (w, seq![Action::OpenStore], Option::Some(BootstrapError::StoreConnectionError))
    } else {
        let opened = WorldModel { store_file: true, ..w };
        if w.store_file {
            (opened, seq![Action::OpenStore], Option::<BootstrapError>::None)
        } else if w.table_create_fails {
            (
                opened,
                seq![Action::OpenStore, Action::CreateTable(Table::Account)],
                Option::Some(BootstrapError::SchemaError(Table::Account)),
            )
        } else {
            (
                WorldModel { schema: true, ..opened },
                seq![Action::OpenStore] + spec_schema_tables(),
                Option::<BootstrapError>::None,
            )
        }
    }
}

/// The identity phase: look the default account up; return its identifier
/// when found, create it under the given fresh identifier when absent.
pub open spec fn spec_init_default_user(w: WorldModel, fresh_id: Seq<char>) -> (
    WorldModel,
    Seq<Action>,
    Result<Seq<char>, BootstrapError>,
) {
    if w.lookup_fails {
        (
            w,
            seq![Action::LookupAccount],
            Result::Err(BootstrapError::LookupError(EntityKind::Account)),
        )
    } else {
        match w.account {
            Option::Some(a) => (w, seq![Action::LookupAccount], Result::Ok(a.id)),
            Option::None => {
                if w.insert_fails {
                    (
                        w,
                        seq![Action::LookupAccount, Action::CreateAccount],
                        Result::Err(BootstrapError::CreationError(EntityKind::Account)),
                    )
                } else {
                    (
                        WorldModel { account: Option::Some(spec_default_account(fresh_id)), ..w },
                        seq![Action::LookupAccount, Action::CreateAccount],
                        Result::Ok(fresh_id),
                    )
                }
            },
        }
    }
}

/// The workspace phase: look the default workspace up by its reserved name
/// (by name alone — the design's known looseness), create its row under
/// the given fresh identifier when absent, then ensure its backing
/// directory exists. The directory is re-checked on every run: a deleted
/// directory is repaired without touching the row.
pub open spec fn spec_init_default_workspace(
    w: WorldModel,
    account_id: Seq<char>,
    fresh_id: Seq<char>,
    now: int,
) -> (WorldModel, Seq<Action>, Result<Seq<char>, BootstrapError>) {
    if w.lookup_fails {
        (
            w,
            seq![Action::LookupWorkspace],
            Result::Err(BootstrapError::LookupError(EntityKind::Workspace)),
        )
    } else {
        match w.workspace {
            Option::Some(ws) => {
                let d = spec_ensure_dir(w, DirKind::WorkspaceDir);
                match d.2 {
                    Option::Some(e) => (d.0, seq![Action::LookupWorkspace] + d.1, Result::Err(e)),
                    Option::None => (d.0, seq![Action::LookupWorkspace] + d.1, Result::Ok(ws.id)),
                }
            },
            Option::None => {
                if w.insert_fails {
                    (
                        w,
                        seq![Action::LookupWorkspace, Action::CreateWorkspace],
                        Result::Err(BootstrapError::CreationError(EntityKind::Workspace)),
                    )
                } else {
                    let created = WorldModel {
                        workspace: Option::Some(
                            spec_default_workspace(fresh_id, account_id, now),
                        ),
                        ..w
                    };
                    let d = spec_ensure_dir(created, DirKind::WorkspaceDir);
                    match d.2 {
                        Option::Some(e) => (
                            d.0,
                            seq![Action::LookupWorkspace, Action::CreateWorkspace] + d.1,
                            Result::Err(e),
                        ),
                        Option::None => (
                            d.0,
                            seq![Action::LookupWorkspace, Action::CreateWorkspace] + d.1,
                            Result::Ok(fresh_id),
                        ),
                    }
                }
            },
        }
    }
}

/// Identifiers of the provisioned default entities.
#[derive(Clone, Debug, PartialEq, Eq)]
pub struct Outcome {
    pub account_id: String,
    pub workspace_id: String,
}

/// Spec-level image of an [`Outcome`].
#[verifier::ext_equal]
pub struct OutcomeModel {
    pub account_id: Seq<char>,
    pub workspace_id: Seq<char>,
}

impl View for Outcome {
    type V = OutcomeModel;

    open spec fn view(&self) -> OutcomeModel {
        OutcomeModel { account_id: self.account_id@, workspace_id: self.workspace_id@ }
    }
}

/// Spec-level result of a whole bootstrap run: the world it leaves behind,
/// the exact trace of outside calls it performs, and its outcome.
#[verifier::ext_equal]
pub struct RunModel {
    pub world: WorldModel,
    pub actions: Seq<Action>,
    pub result: Result<OutcomeModel, BootstrapError>,
}

/// The whole bootstrap sequence over the world model: paths, store and
/// schema, default account, the account's file directory, then the default
/// workspace with its directory. Each phase runs only when every earlier
/// phase succeeded; the first error ends the run.
pub open spec fn spec_run_bootstrap(
    w: WorldModel,
    fresh_account_id: Seq<char>,
    fresh_workspace_id: Seq<char>,
    now: int,
) -> RunModel {
    let p = spec_provision_paths(w);
    match p.2 {
        Option::Some(e) => RunModel { world: p.0, actions: p.1, result: Result::Err(e) },
        Option::None => {
            let s = spec_init_data_db(p.0);
            match s.2 {
                Option::Some(e) => RunModel {
                    world: s.0,
                    actions: p.1 + s.1,
                    result: Result::Err(e),
                },
                Option::None => {
                    let u = spec_init_default_user(s.0, fresh_account_id);
                    match u.2 {
                        Result::Err(e) => RunModel {
                            world: u.0,
                            actions: p.1 + s.1 + u.1,
                            result: Result::Err(e),
                        },
                        Result::Ok(account_id) => {
                            let a = spec_ensure_dir(u.0, DirKind::AccountDir);
                            match a.2 {
                                Option::Some(e) => RunModel {
                                    world: a.0,
                                    actions: p.1 + s.1 + u.1 + a.1,
                                    result: Result::Err(e),
                                },
                                Option::None => {
                                    let ws = spec_init_default_workspace(
                                        a.0,
                                        account_id,
                                        fresh_workspace_id,
                                        now,
                                    );
                                    match ws.2 {
                                        Result::Err(e) => RunModel {
                                            world: ws.0,
                                            actions: p.1 + s.1 + u.1 + a.1 + ws.1,
                                            result: Result::Err(e),
                                        },
                                        Result::Ok(workspace_id) => RunModel {
                                            world: ws.0,
                                            actions: p.1 + s.1 + u.1 + a.1 + ws.1,
                                            result: Result::Ok(
                                                OutcomeModel {
                                                    account_id: account_id,
                                                    workspace_id: workspace_id,
                                                },
                                            ),
                                        },
                                    }
                                },
                            }
                        },
                    }
                },
            }
        },
    }
}

/// The inputs on which the whole sequence succeeds: every directory it
/// will need either exists or can be created, the store opens, table
/// creation is only needed where it works, lookups work, and inserts are
/// only needed where they work.
pub open spec fn spec_success(w: WorldModel) -> bool {
    &&& (w.dir_create_fails ==> w.root_dir && w.config_dir && w.data_dir && w.file_dir
        && w.account_dir && w.workspace_dir)
    &&& !w.store_open_fails
    &&& (w.table_create_fails ==> w.store_file)
    &&& !w.lookup_fails
    &&& (w.insert_fails ==> w.account is Some && w.workspace is Some)
}

/// Result of a whole bootstrap run: the world it leaves behind, the trace
/// of outside calls the application must perform in order, and the
/// outcome the caller acts on.
#[derive(Debug)]
pub struct BootstrapRun {
    pub world: World,
    pub actions: Vec<Action>,
    pub result: Result<Outcome, BootstrapError>,
}

/// Check-then-create for one directory of the fixed layout.
///
/// An existing directory is a no-op; a missing one is recorded for
/// creation; a failing creation is fatal and leaves the world unchanged.
pub fn ensure_dir(w: &mut World, k: DirKind, actions: &mut Vec<Action>) -> (r: Option<
    BootstrapError,
>)
    ensures
        ({
            let s = spec_ensure_dir(old(w)@, k);
            &&& final(w)@ == s.0
            &&& final(actions)@ == old(actions)@ + s.1
            &&& r == s.2
        }),
{
    let exists = match k {
        DirKind::Root => w.root_dir,
        DirKind::Config => w.config_dir,
        DirKind::Data => w.data_dir,
        DirKind::FileStorage => w.file_dir,
        DirKind::AccountDir => w.account_dir,
        DirKind::WorkspaceDir => w.workspace_dir,
    };
    if exists {
        proof {
            assert(actions@ =~= actions@ + Seq::<Action>::empty());
        }
        return Option::None;
    }
    actions.push(Action::CreateDir(k));
    proof {
        assert(actions@ =~= old(actions)@ + seq![Action::CreateDir(k)]);
    }
    if w.dir_create_fails {
        return Option::Some(BootstrapError::PathError(k));
    }
    match k {
        DirKind::Root => w.root_dir = true,
        DirKind::Config => w.config_dir = true,
        DirKind::Data => w.data_dir = true,
        DirKind::FileStorage => w.file_dir = true,
        DirKind::AccountDir => w.account_dir = true,
        DirKind::WorkspaceDir => w.workspace_dir = true,
    }
    Option::None
}

/// The path-provisioning phase: guarantee the root, config, data and
/// file-storage directories, in that order, stopping at the first failure.
pub fn provision_paths(w: &mut World, actions: &mut Vec<Action>) -> (r: Option<BootstrapError>)
    ensures
        ({
            let s = spec_provision_paths(old(w)@);
            &&& final(w)@ == s.0
            &&& final(actions)@ == old(actions)@ + s.1
            &&& r == s.2
        }),
{
    let ghost w0 = w@;
    let ghost a0 = actions@;
    if let Option::Some(e) = ensure_dir(w, DirKind::Root, actions) {
        return Option::Some(e);
    }
    if let Option::Some(e) = ensure_dir(w, DirKind::Config, actions) {
        proof {
            let r = spec_ensure_dir(w0, DirKind::Root);
            let c = spec_ensure_dir(r.0, DirKind::Config);
            assert(actions@ =~= a0 + (r.1 + c.1));
        }
        return Option::Some(e);
    }
    if let Option::Some(e) = ensure_dir(w, DirKind::Data, actions) {
        proof {
            let r = spec_ensure_dir(w0, DirKind::Root);
            let c = spec_ensure_dir(r.0, DirKind::Config);
            let d = spec_ensure_dir(c.0, DirKind::Data);
            assert(actions@ =~= a0 + (r.1 + c.1 + d.1));
        }
        return Option::Some(e);
    }
    let res = ensure_dir(w, DirKind::FileStorage, actions);
    proof {
        let r = spec_ensure_dir(w0, DirKind::Root);
        let c = spec_ensure_dir(r.0, DirKind::Config);
        let d = spec_ensure_dir(c.0, DirKind::Data);
        let f = spec_ensure_dir(d.0, DirKind::FileStorage);
        assert(actions@ =~= a0 + (r.1 + c.1 + d.1 + f.1));
    }
    res
}

/// The store-initialisation phase: open the store at its fixed path under
/// the data directory, creating the file when absent; on first creation,
/// create every entity table in dependency order. A pre-existing store
/// file skips table creation entirely.
pub fn init_data_db(w: &mut World, actions: &mut Vec<Action>) -> (r: Option<BootstrapError>)
    ensures
        ({
            let s = spec_init_data_db(old(w)@);
            &&& final(w)@ == s.0
            &&& final(actions)@ == old(actions)@ + s.1
            &&& r == s.2
        }),
{
    actions.push(Action::OpenStore);
    proof {
        assert(actions@ =~= old(actions)@ + seq![Action::OpenStore]);
    }
    if w.store_open_fails {
        return Option::Some(BootstrapError::StoreConnectionError);
    }
    let existed = w.store_file;
    w.store_file = true;
    if existed {
        return Option::None;
    }
    actions.push(Action::CreateTable(Table::Account));
    proof {
        assert(actions@ =~= old(actions)@ + seq![
            Action::OpenStore,
            Action::CreateTable(Table::Account),
        ]);
    }
    if w.table_create_fails {
        return Option::Some(BootstrapError::SchemaError(Table::Account));
    }
    actions.push(Action::CreateTable(Table::Workspace));
    actions.push(Action::CreateTable(Table::FileNode));
    actions.push(Action::CreateTable(Table::Setting));
    actions.push(Action::CreateTable(Table::AiSource));
    actions.push(Action::CreateTable(Table::AiModel));
    w.schema = true;
    proof {
        assert(actions@ =~= old(actions)@ + (seq![Action::OpenStore] + spec_schema_tables()));
    }
    Option::None
}

/// The identity phase: look the default account up by its login name and
/// the local provider tag; return its identifier when found, create it
/// with the fixed default login name, credential and display name when
/// absent. Safe to call on every start: it never creates a second row.
pub fn init_default_user(w: &mut World, fresh_id: String, actions: &mut Vec<Action>) -> (r: Result<
    String,
    BootstrapError,
>)
    ensures
        ({
            let s = spec_init_default_user(old(w)@, fresh_id@);
            &&& final(w)@ == s.0
            &&& final(actions)@ == old(actions)@ + s.1
            &&& match r {
                Result::Ok(id) => s.2 matches Result::Ok(i) && id@ == i,
                Result::Err(e) => s.2 matches Result::Err(e2) && e == e2,
            }
        }),
{
    actions.push(Action::LookupAccount);
    proof {
        assert(actions@ =~= old(actions)@ + seq![Action::LookupAccount]);
    }
    if w.lookup_fails {
        return Result::Err(BootstrapError::LookupError(EntityKind::Account));
    }
    let found: Option<String> = match &w.account {
        Option::Some(a) => Option::Some(a.id.clone()),
        Option::None => Option::None,
    };
    match found {
        Option::Some(id) => Result::Ok(id),
        Option::None => {
            actions.push(Action::CreateAccount);
            proof {
                assert(actions@ =~= old(actions)@ + seq![
                    Action::LookupAccount,
                    Action::CreateAccount,
                ]);
            }
            if w.insert_fails {
                return Result::Err(BootstrapError::CreationError(EntityKind::Account));
            }
            let id = fresh_id.clone();
            w.account = Option::Some(
                Account {
                    id: fresh_id,
                    username: crate::names::default_username().to_owned(),
                    password: crate::names::default_password().to_owned(),
                    nickname: crate::names::default_nickname().to_owned(),
                    provider: crate::names::provider_local().to_owned(),
                },
            );
            Result::Ok(id)
        },
    }
}

/// The workspace phase: look the default workspace up by its reserved name
/// (by name alone — the design's known looseness), create its row owned by
/// the given account when absent, then guarantee its backing directory.
/// The directory is re-checked on every run, so a directory deleted
/// between runs is repaired without touching the row.
pub fn init_default_workspace(
    w: &mut World,
    account_id: String,
    fresh_id: String,
    now: i64,
    actions: &mut Vec<Action>,
) -> (r: Result<String, BootstrapError>)
    ensures
        ({
            let s = spec_init_default_workspace(old(w)@, account_id@, fresh_id@, now as int);
            &&& final(w)@ == s.0
            &&& final(actions)@ == old(actions)@ + s.1
            &&& match r {
                Result::Ok(id) => s.2 matches Result::Ok(i) && id@ == i,
                Result::Err(e) => s.2 matches Result::Err(e2) && e == e2,
            }
        }),
{
    actions.push(Action::LookupWorkspace);
    proof {
        assert(actions@ =~= old(actions)@ + seq![Action::LookupWorkspace]);
    }
    if w.lookup_fails {
        return Result::Err(BootstrapError::LookupError(EntityKind::Workspace));
    }
    let found: Option<String> = match &w.workspace {
        Option::Some(ws) => Option::Some(ws.id.clone()),
        Option::None => Option::None,
    };
    let id: String = match found {
        Option::Some(id) => id,
        Option::None => {
            actions.push(Action::CreateWorkspace);
            proof {
                assert(actions@ =~= old(actions)@ + seq![
                    Action::LookupWorkspace,
                    Action::CreateWorkspace,
                ]);
            }
            if w.insert_fails {
                return Result::Err(BootstrapError::CreationError(EntityKind::Workspace));
            }
            let id = fresh_id.clone();
            w.workspace = Option::Some(
                Workspace {
                    id: fresh_id,
                    account_id: account_id,
                    name: crate::names::default_workspace_name().to_owned(),
                    create_time: now,
                    update_time: now,
                },
            );
            id
        },
    };
    let ghost before_dir = w@;
    let res = ensure_dir(w, DirKind::WorkspaceDir, actions);
    proof {
        let d = spec_ensure_dir(before_dir, DirKind::WorkspaceDir);
        if old(w)@.workspace is Some {
            assert(actions@ =~= old(actions)@ + (seq![Action::LookupWorkspace] + d.1));
        } else {
            assert(actions@ =~= old(actions)@ + (seq![
                Action::LookupWorkspace,
                Action::CreateWorkspace,
            ] + d.1));
        }
    }
    match res {
        Option::Some(e) => Result::Err(e),
        Option::None => Result::Ok(id),
    }
}

/// Facts that hold of every bootstrap run on a well-formed world: the run
/// leaves a well-formed world behind, it succeeds exactly on the inputs
/// [`spec_success`] names, success leaves the world fully provisioned with
/// the returned identifiers naming the rows, the environment's failure
/// behaviour is not what a run changes, and rows that existed before the
/// run are never replaced.
#[verifier::rlimit(100)]
pub proof fn lemma_run_bootstrap_props(w: WorldModel, uid: Seq<char>, wid: Seq<char>, now: int)
    requires
        w.wf(),
        uid.len() > 0,
        wid.len() > 0,
    ensures
        ({
            let s = spec_run_bootstrap(w, uid, wid, now);
            &&& s.world.wf()
            &&& (s.result is Ok <==> spec_success(w))
            &&& (s.result is Ok ==> s.world.fully_provisioned())
            &&& s.world.dir_create_fails == w.dir_create_fails
            &&& s.world.store_open_fails == w.store_open_fails
            &&& s.world.table_create_fails == w.table_create_fails
            &&& s.world.lookup_fails == w.lookup_fails
            &&& s.world.insert_fails == w.insert_fails
            &&& (s.result matches Ok(o) ==> s.world.account matches Some(a) && a.id
                == o.account_id && o.account_id.len() > 0)
            &&& (s.result matches Ok(o) ==> s.world.workspace matches Some(ws) && ws.id
                == o.workspace_id && o.workspace_id.len() > 0)
            &&& (w.account is Some ==> s.world.account == w.account)
            &&& (w.workspace is Some ==> s.world.workspace == w.workspace)
        }),
{
    let p = spec_provision_paths(w);
    lemma_provision_paths_props(w);
    if p.2 is None {
        let s = spec_init_data_db(p.0);
        lemma_init_data_db_props(p.0);
        if s.2 is None {
            let u = spec_init_default_user(s.0, uid);
            lemma_init_default_user_props(s.0, uid);
            if u.2 is Ok {
                let a = spec_ensure_dir(u.0, DirKind::AccountDir);
                assert(a.0.wf());
                if a.2 is None {
                    let t = spec_init_default_workspace(a.0, u.2.unwrap(), wid, now);
                    lemma_init_default_workspace_props(a.0, u.2.unwrap(), wid, now);
                }
            }
        }
    }
}

/// The whole bootstrap sequence, as the application runs it at startup:
/// provision the directory skeleton, open the store and create its schema
/// on first run, ensure the default account, its file directory, and the
/// default workspace with its backing directory.
///
/// `fresh_account_id` and `fresh_workspace_id` are the identifiers the
/// application's generator would assign to newly created rows; they are
/// used only where the respective row is absent. `now` is the clock
/// reading stamped onto a newly created workspace. The caller performs the
/// outside calls of `r.actions` in order; on an error it must not start
/// the application.
pub fn run_bootstrap(
    w: World,
    fresh_account_id: String,
    fresh_workspace_id: String,
    now: i64,
) -> (r: BootstrapRun)
    requires
        w@.wf(),
        fresh_account_id@.len() > 0,
        fresh_workspace_id@.len() > 0,
    ensures
        ({
            let s = spec_run_bootstrap(w@, fresh_account_id@, fresh_workspace_id@, now as int);
            &&& r.world@ == s.world
            &&& r.actions@ == s.actions
            &&& match r.result {
                Result::Ok(o) => s.result matches Result::Ok(om) && o@ == om,
                Result::Err(e) => s.result matches Result::Err(e2) && e == e2,
            }
            &&& (r.result is Ok <==> spec_success(w@))
            &&& r.world@.wf()
            &&& (r.result is Ok ==> r.world@.fully_provisioned())
        }),
{
    let ghost w0 = w@;
    let ghost uid0 = fresh_account_id@;
    let ghost wid0 = fresh_workspace_id@;
    proof {
        lemma_run_bootstrap_props(w0, uid0, wid0, now as int);
    }
    let mut world = w;
    let mut actions: Vec<Action> = Vec::new();
    let ghost p = spec_provision_paths(w0);
    if let Option::Some(e) = provision_paths(&mut world, &mut actions) {
        proof {
            assert(actions@ =~= p.1);
        }
        return BootstrapRun { world, actions, result: Result::Err(e) };
    }
    proof {
        assert(actions@ =~= p.1);
    }
    if let Option::Some(e) = init_data_db(&mut world, &mut actions) {
        return BootstrapRun { world, actions, result: Result::Err(e) };
    }
    let account_id = match init_default_user(&mut world, fresh_account_id, &mut actions) {
        Result::Ok(id) => id,
        Result::Err(e) => {
            return BootstrapRun { world, actions, result: Result::Err(e) };
        },
    };
    if let Option::Some(e) = ensure_dir(&mut world, DirKind::AccountDir, &mut actions) {
        return BootstrapRun { world, actions, result: Result::Err(e) };
    }
    let account_id_out = account_id.clone();
    let workspace_id = match init_default_workspace(
        &mut world,
        account_id,
        fresh_workspace_id,
        now,
        &mut actions,
    ) {
        Result::Ok(id) => id,
        Result::Err(e) => {
            return BootstrapRun { world, actions, result: Result::Err(e) };
        },
    };
    BootstrapRun {
        world,
        actions,
        result: Result::Ok(Outcome { account_id: account_id_out, workspace_id }),
    }
}


/// How the path-provisioning phase relates to the world it ran on: it
/// touches nothing but the four base directory flags, succeeds exactly
/// when every missing one can be created, and leaves all four in place on
/// success.
#[verifier::rlimit(60)]
pub proof fn lemma_provision_paths_props(w: WorldModel)
    requires
        w.wf(),
    ensures
        ({
            let p = spec_provision_paths(w);
            &&& p.0.wf()
            &&& p.0.store_file == w.store_file
            &&& p.0.schema == w.schema
            &&& p.0.account == w.account
            &&& p.0.workspace == w.workspace
            &&& p.0.account_dir == w.account_dir
            &&& p.0.workspace_dir == w.workspace_dir
            &&& p.0.dir_create_fails == w.dir_create_fails
            &&& p.0.store_open_fails == w.store_open_fails
            &&& p.0.table_create_fails == w.table_create_fails
            &&& p.0.lookup_fails == w.lookup_fails
            &&& p.0.insert_fails == w.insert_fails
            &&& (p.2 is None <==> (w.dir_create_fails ==> w.root_dir && w.config_dir && w.data_dir
                && w.file_dir))
            &&& (p.2 is None ==> p.0.root_dir && p.0.config_dir && p.0.data_dir && p.0.file_dir)
        }),
{
    let r = spec_ensure_dir(w, DirKind::Root);
    let c = spec_ensure_dir(r.0, DirKind::Config);
    let d = spec_ensure_dir(c.0, DirKind::Data);
    let f = spec_ensure_dir(d.0, DirKind::FileStorage);
}

/// How the store-initialisation phase relates to the world it ran on: it
/// touches nothing but the store-file and schema flags, succeeds exactly
/// when the store opens and any needed table creation works, and leaves
/// the store file in place on success.
pub proof fn lemma_init_data_db_props(w: WorldModel)
    requires
        w.wf(),
    ensures
        ({
            let s = spec_init_data_db(w);
            &&& s.0.wf()
            &&& s.0.root_dir == w.root_dir
            &&& s.0.config_dir == w.config_dir
            &&& s.0.data_dir == w.data_dir
            &&& s.0.file_dir == w.file_dir
            &&& s.0.account == w.account
            &&& s.0.workspace == w.workspace
            &&& s.0.account_dir == w.account_dir
            &&& s.0.workspace_dir == w.workspace_dir
            &&& s.0.dir_create_fails == w.dir_create_fails
            &&& s.0.store_open_fails == w.store_open_fails
            &&& s.0.table_create_fails == w.table_create_fails
            &&& s.0.lookup_fails == w.lookup_fails
            &&& s.0.insert_fails == w.insert_fails
            &&& (s.2 is None <==> !w.store_open_fails && (w.table_create_fails ==> w.store_file))
            &&& (s.2 is None ==> s.0.store_file)
        }),
{
}

/// How the identity phase relates to the world it ran on: it touches
/// nothing but the account row, succeeds exactly when the lookup works
/// and any needed insert works, returns the identifier of the row it
/// found or created, and never replaces an existing row.
pub proof fn lemma_init_default_user_props(w: WorldModel, uid: Seq<char>)
    requires
        w.wf(),
        w.store_file,
        uid.len() > 0,
    ensures
        ({
            let u = spec_init_default_user(w, uid);
            &&& u.0.wf()
            &&& u.0.root_dir == w.root_dir
            &&& u.0.config_dir == w.config_dir
            &&& u.0.data_dir == w.data_dir
            &&& u.0.file_dir == w.file_dir
            &&& u.0.store_file == w.store_file
            &&& u.0.schema == w.schema
            &&& u.0.workspace == w.workspace
            &&& u.0.account_dir == w.account_dir
            &&& u.0.workspace_dir == w.workspace_dir
            &&& u.0.dir_create_fails == w.dir_create_fails
            &&& u.0.store_open_fails == w.store_open_fails
            &&& u.0.table_create_fails == w.table_create_fails
            &&& u.0.lookup_fails == w.lookup_fails
            &&& u.0.insert_fails == w.insert_fails
            &&& (u.2 is Ok <==> !w.lookup_fails && (w.account is None ==> !w.insert_fails))
            &&& (u.2 matches Ok(id) ==> u.0.account matches Some(a) && a.id == id && id.len() > 0)
            &&& (w.account is Some ==> u.0.account == w.account)
            &&& (u.2 is Err ==> u.0 == w)
        }),
{
}

/// How the workspace phase relates to the world it ran on: it touches
/// nothing but the workspace row and its directory flag, succeeds exactly
/// when the lookup works, any needed insert works and any needed
/// directory creation works, returns the identifier of the row it found
/// or created with its directory in place, and never replaces an existing
/// row.
pub proof fn lemma_init_default_workspace_props(
    w: WorldModel,
    aid: Seq<char>,
    wid: Seq<char>,
    now: int,
)
    requires
        w.wf(),
        w.store_file,
        w.account_dir,
        wid.len() > 0,
    ensures
        ({
            let t = spec_init_default_workspace(w, aid, wid, now);
            &&& t.0.wf()
            &&& t.0.root_dir == w.root_dir
            &&& t.0.config_dir == w.config_dir
            &&& t.0.data_dir == w.data_dir
            &&& t.0.file_dir == w.file_dir
            &&& t.0.store_file == w.store_file
            &&& t.0.schema == w.schema
            &&& t.0.account == w.account
            &&& t.0.account_dir == w.account_dir
            &&& t.0.dir_create_fails == w.dir_create_fails
            &&& t.0.store_open_fails == w.store_open_fails
            &&& t.0.table_create_fails == w.table_create_fails
            &&& t.0.lookup_fails == w.lookup_fails
            &&& t.0.insert_fails == w.insert_fails
            &&& (t.2 is Ok <==> !w.lookup_fails && (w.workspace is None ==> !w.insert_fails) && (
            w.workspace_dir || !w.dir_create_fails))
            &&& (t.2 matches Ok(id) ==> t.0.workspace matches Some(ws) && ws.id == id && id.len()
                > 0 && t.0.workspace_dir)
            &&& (w.workspace is Some ==> t.0.workspace == w.workspace)
        }),
{
}

/// No table-creation call occurs in the trace.
pub open spec fn no_table_creation(s: Seq<Action>) -> bool {
    forall|i: int| 0 <= i < s.len() ==> !(#[trigger] s[i] is CreateTable)
}

proof fn lemma_no_table_creation_concat(a: Seq<Action>, b: Seq<Action>)
    requires
        no_table_creation(a),
        no_table_creation(b),
    ensures
        no_table_creation(a + b),
{
    assert forall|i: int| 0 <= i < (a + b).len() implies !((a + b)[i] is CreateTable) by {
        if i < a.len() {
            assert((a + b)[i] == a[i]);
        } else {
            assert((a + b)[i] == b[i - a.len()]);
        }
    }
}

proof fn lemma_no_table_one(a: Action)
    requires
        !(a is CreateTable),
    ensures
        no_table_creation(seq![a]),
{
    assert(seq![a][0] == a);
}

proof fn lemma_no_table_two(a: Action, b: Action)
    requires
        !(a is CreateTable),
        !(b is CreateTable),
    ensures
        no_table_creation(seq![a, b]),
{
    assert(seq![a, b][0] == a);
    assert(seq![a, b][1] == b);
}

proof fn lemma_ensure_dir_no_tables(w: WorldModel, k: DirKind)
    ensures
        no_table_creation(spec_ensure_dir(w, k).1),
{
    lemma_no_table_one(Action::CreateDir(k));
}

proof fn lemma_provision_paths_no_tables(w: WorldModel)
    ensures
        no_table_creation(spec_provision_paths(w).1),
{
    let r = spec_ensure_dir(w, DirKind::Root);
    let c = spec_ensure_dir(r.0, DirKind::Config);
    let d = spec_ensure_dir(c.0, DirKind::Data);
    let f = spec_ensure_dir(d.0, DirKind::FileStorage);
    lemma_ensure_dir_no_tables(w, DirKind::Root);
    lemma_ensure_dir_no_tables(r.0, DirKind::Config);
    lemma_ensure_dir_no_tables(c.0, DirKind::Data);
    lemma_ensure_dir_no_tables(d.0, DirKind::FileStorage);
    lemma_no_table_creation_concat(r.1, c.1);
    lemma_no_table_creation_concat(r.1 + c.1, d.1);
    lemma_no_table_creation_concat(r.1 + c.1 + d.1, f.1);
}

proof fn lemma_init_default_user_no_tables(w: WorldModel, uid: Seq<char>)
    ensures
        no_table_creation(spec_init_default_user(w, uid).1),
{
    lemma_no_table_one(Action::LookupAccount);
    lemma_no_table_two(Action::LookupAccount, Action::CreateAccount);
}

proof fn lemma_init_default_workspace_no_tables(
    w: WorldModel,
    aid: Seq<char>,
    wid: Seq<char>,
    now: int,
)
    ensures
        no_table_creation(spec_init_default_workspace(w, aid, wid, now).1),
{
    lemma_no_table_one(Action::LookupWorkspace);
    lemma_no_table_two(Action::LookupWorkspace, Action::CreateWorkspace);
    lemma_ensure_dir_no_tables(w, DirKind::WorkspaceDir);
    let created = WorldModel {
        workspace: Option::Some(spec_default_workspace(wid, aid, now)),
        ..w
    };
    lemma_ensure_dir_no_tables(created, DirKind::WorkspaceDir);
    lemma_no_table_creation_concat(
        seq![Action::LookupWorkspace],
        spec_ensure_dir(w, DirKind::WorkspaceDir).1,
    );
    lemma_no_table_creation_concat(
        seq![Action::LookupWorkspace, Action::CreateWorkspace],
        spec_ensure_dir(created, DirKind::WorkspaceDir).1,
    );
}

/// Schema creation happens only when the store file is first created:
/// with a pre-existing store file a bootstrap run performs no
/// table-creation call at all, keeps the store file, and never replaces
/// rows that already exist.
pub proof fn lemma_schema_creation_once(w: WorldModel, uid: Seq<char>, wid: Seq<char>, now: int)
    requires
        w.wf(),
        w.store_file,
        uid.len() > 0,
        wid.len() > 0,
    ensures
        ({
            let s = spec_run_bootstrap(w, uid, wid, now);
            &&& no_table_creation(s.actions)
            &&& s.world.store_file
            &&& (w.account is Some ==> s.world.account == w.account)
            &&& (w.workspace is Some ==> s.world.workspace == w.workspace)
        }),
{
    lemma_run_bootstrap_props(w, uid, wid, now);
    let p = spec_provision_paths(w);
    lemma_provision_paths_props(w);
    lemma_provision_paths_no_tables(w);
    if p.2 is None {
        let s = spec_init_data_db(p.0);
        lemma_init_data_db_props(p.0);
        lemma_no_table_one(Action::OpenStore);
        lemma_no_table_creation_concat(p.1, s.1);
        if s.2 is None {
            let u = spec_init_default_user(s.0, uid);
            lemma_init_default_user_props(s.0, uid);
            lemma_init_default_user_no_tables(s.0, uid);
            lemma_no_table_creation_concat(p.1 + s.1, u.1);
            if u.2 is Ok {
                let a = spec_ensure_dir(u.0, DirKind::AccountDir);
                lemma_ensure_dir_no_tables(u.0, DirKind::AccountDir);
                lemma_no_table_creation_concat(p.1 + s.1 + u.1, a.1);
                if a.2 is None {
                    let t = spec_init_default_workspace(a.0, u.2.unwrap(), wid, now);
                    lemma_init_default_workspace_no_tables(a.0, u.2.unwrap(), wid, now);
                    lemma_no_table_creation_concat(p.1 + s.1 + u.1 + a.1, t.1);
                }
            }
        }
    }
}

/// A bootstrap run on a fully provisioned, fault-free world changes
/// nothing and performs exactly the store open and the two lookups.
pub proof fn lemma_steady_state(v: WorldModel, uid: Seq<char>, wid: Seq<char>, now: int)
    requires
        v.wf(),
        v.fault_free(),
        v.fully_provisioned(),
        uid.len() > 0,
        wid.len() > 0,
    ensures
        ({
            let r = spec_run_bootstrap(v, uid, wid, now);
            &&& r.result is Ok
            &&& r.world == v
            &&& r.actions == seq![
                Action::OpenStore,
                Action::LookupAccount,
                Action::LookupWorkspace,
            ]
        }),
{
    let p = spec_provision_paths(v);
    assert(p.0 == v && p.2 is None);
    assert(p.1 =~= Seq::<Action>::empty());
    let s = spec_init_data_db(p.0);
    assert(s.0 =~= v);
    let u = spec_init_default_user(s.0, uid);
    assert(u.0 == s.0 && u.2 is Ok);
    let a = spec_ensure_dir(u.0, DirKind::AccountDir);
    assert(a.0 == u.0 && a.2 is None && a.1 =~= Seq::<Action>::empty());
    let t = spec_init_default_workspace(a.0, u.2.unwrap(), wid, now);
    assert(t.0 == a.0 && t.2 is Ok);
    let r = spec_run_bootstrap(v, uid, wid, now);
    assert(r.world == v);
    assert(r.actions =~= seq![Action::OpenStore, Action::LookupAccount, Action::LookupWorkspace]);
}

/// Idempotence: bootstrapping a fresh, fault-free home leaves exactly one
/// account row and one default workspace row, and a second run returns
/// the same fully provisioned world unchanged — its trace is exactly the
/// store open and the two lookups, with nothing created.
pub proof fn lemma_bootstrap_idempotent(
    w: WorldModel,
    uid1: Seq<char>,
    wid1: Seq<char>,
    now1: int,
    uid2: Seq<char>,
    wid2: Seq<char>,
    now2: int,
)
    requires
        w.wf(),
        w.fresh_home(),
        w.fault_free(),
        uid1.len() > 0,
        wid1.len() > 0,
        uid2.len() > 0,
        wid2.len() > 0,
    ensures
        ({
            let r1 = spec_run_bootstrap(w, uid1, wid1, now1);
            let r2 = spec_run_bootstrap(r1.world, uid2, wid2, now2);
            &&& r1.result is Ok
            &&& r1.world.fully_provisioned()
            &&& r1.world.account is Some
            &&& r1.world.workspace is Some
            &&& r2.result is Ok
            &&& r2.world == r1.world
            &&& r2.actions == seq![
                Action::OpenStore,
                Action::LookupAccount,
                Action::LookupWorkspace,
            ]
        }),
{
    lemma_run_bootstrap_props(w, uid1, wid1, now1);
    let r1 = spec_run_bootstrap(w, uid1, wid1, now1);
    assert(spec_success(w));
    assert(r1.world.fault_free());
    lemma_steady_state(r1.world, uid2, wid2, now2);
}

/// Directory repair: on a fault-free world that is fully provisioned
/// except for the default workspace's backing directory, a bootstrap run
/// recreates exactly that directory and changes nothing else — in
/// particular it creates no second workspace row.
pub proof fn lemma_directory_repair(v: WorldModel, uid: Seq<char>, wid: Seq<char>, now: int)
    requires
        v.wf(),
        v.fault_free(),
        v.root_dir,
        v.config_dir,
        v.data_dir,
        v.file_dir,
        v.store_file,
        v.account is Some,
        v.workspace is Some,
        v.account_dir,
        !v.workspace_dir,
        uid.len() > 0,
        wid.len() > 0,
    ensures
        ({
            let r = spec_run_bootstrap(v, uid, wid, now);
            &&& r.result is Ok
            &&& r.world == WorldModel { workspace_dir: true, ..v }
            &&& r.world.workspace == v.workspace
            &&& r.actions == seq![
                Action::OpenStore,
                Action::LookupAccount,
                Action::LookupWorkspace,
                Action::CreateDir(DirKind::WorkspaceDir),
            ]
        }),
{
    let p = spec_provision_paths(v);
    assert(p.0 == v && p.2 is None);
    assert(p.1 =~= Seq::<Action>::empty());
    let s = spec_init_data_db(p.0);
    assert(s.0 =~= v);
    let u = spec_init_default_user(s.0, uid);
    assert(u.0 == s.0 && u.2 is Ok);
    let a = spec_ensure_dir(u.0, DirKind::AccountDir);
    assert(a.0 == u.0 && a.2 is None && a.1 =~= Seq::<Action>::empty());
    let t = spec_init_default_workspace(a.0, u.2.unwrap(), wid, now);
    let d = spec_ensure_dir(a.0, DirKind::WorkspaceDir);
    assert(d.0 =~= WorldModel { workspace_dir: true, ..v });
    assert(t.0 == d.0 && t.2 is Ok);
    let r = spec_run_bootstrap(v, uid, wid, now);
    assert(r.world == t.0);
    assert(r.actions =~= seq![
        Action::OpenStore,
        Action::LookupAccount,
        Action::LookupWorkspace,
        Action::CreateDir(DirKind::WorkspaceDir),
    ]);
}

/// Failure: when nothing exists yet and the home admits no directory
/// creation (a read-only location), bootstrap fails with the path error
/// for the root directory before any store file is created; the world is
/// left exactly as it was.
pub proof fn lemma_readonly_home_fails(w: WorldModel, uid: Seq<char>, wid: Seq<char>, now: int)
    requires
        w.wf(),
        w.fresh_home(),
        w.dir_create_fails,
        uid.len() > 0,
        wid.len() > 0,
    ensures
        ({
            let r = spec_run_bootstrap(w, uid, wid, now);
            &&& r.result == Result::<OutcomeModel, BootstrapError>::Err(
                BootstrapError::PathError(DirKind::Root),
            )
            &&& r.world == w
            &&& !r.world.store_file
            &&& r.actions == seq![Action::CreateDir(DirKind::Root)]
        }),
{
    let r = spec_run_bootstrap(w, uid, wid, now);
    assert(r.actions =~= seq![Action::CreateDir(DirKind::Root)]);
}

} // verus!
