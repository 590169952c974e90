//! The persisted server entity and the orchestrator's lifecycle decisions.
//!
//! Every command reads the server from the registry, asks the runtime for work, and writes
//! the server back. The functions here decide what to ask for and what to write; the caller
//! performs the runtime calls and the registry I/O between them.
use vstd::prelude::*;
use crate::games::{build_env_vars, clone_opt, env_upto, resolve_startup, resolved_upto, GameConfig, GameType, PortConfig};
use crate::status::ServerStatus;
use crate::text::{append_chars, chars_of, push_signed_decimal, signed_decimal, string_of};
use crate::vars::VarMap;

verus! {

broadcast use vstd::string::group_string_axioms;

/// A point in time: seconds and nanoseconds since the Unix epoch, in UTC.
#[derive(Debug, Clone, Copy, PartialEq, Eq, Structural)]
pub struct Timestamp {
    pub secs: i64,
    pub nanos: u32,
}

/// A game server, as the registry stores it.
#[derive(Debug)]
pub struct Server {
    pub id: String,
    pub name: String,
    pub game_type: GameType,
    pub status: ServerStatus,
    /// The main container, once created; it may since have been removed out of band.
    pub container_id: Option<String>,
    pub port: u16,
    pub memory_mb: u32,
    pub data_path: String,
    pub created_at: Timestamp,
    /// The user's overrides of template variables.
    pub config: VarMap,
    pub installed: bool,
    /// The disposable install container, kept while its logs may still be wanted.
    pub install_container_id: Option<String>,
}

/// A request to create a server.
#[derive(Debug)]
pub struct CreateServerRequest {
    pub name: String,
    pub game_type: GameType,
    pub port: Option<u16>,
    pub config: Option<VarMap>,
    pub memory_mb: Option<u32>,
}

/// The result of a lifecycle command.
#[derive(Debug)]
pub struct ServerResponse {
    pub success: bool,
    pub server: Option<Server>,
    pub error: Option<String>,
}

impl ServerResponse {
    /// A successful response, with the server when there still is one.
    pub fn succeeded(server: Option<Server>) -> (r: Self)
        ensures
            r.success,
            r.server == server,
            r.error.is_none(),
    {
        ServerResponse { success: true, server, error: None }
    }
}

/// Log lines fetched on request.
#[derive(Debug)]
pub struct LogsResponse {
    pub logs: Vec<String>,
    pub error: Option<String>,
}

/// One log line of a server, for subscribers.
#[derive(Debug)]
pub struct LogEvent {
    pub server_id: String,
    pub line: String,
}

impl Clone for LogEvent {
    fn clone(&self) -> (r: Self)
        ensures
            r == *self,
    {
        LogEvent { server_id: self.server_id.clone(), line: self.line.clone() }
    }
}

// ---------------------------------------------------------------- create

/// The port a new server gets: the requested one, else the template's first port, else 25565.
pub open spec fn chosen_port(request_port: Option<u16>, ports: Seq<PortConfig>) -> u16 {
    match request_port {
        Some(p) => p,
        None => if ports.len() > 0 { ports[0].container_port } else { 25565 },
    }
}

/// The memory a new server gets: the requested amount, else the template's recommendation.
pub open spec fn chosen_memory(request_memory: Option<u32>, game: GameConfig) -> u32 {
    match request_memory {
        Some(m) => m,
        None => game.recommended_ram_mb,
    }
}

/// What creating a server's main container needs, worked out from the request and template.
#[derive(Debug)]
pub struct CreatePlan {
    pub port: u16,
    pub memory_mb: u32,
    /// The user's overrides, empty when the request gives none.
    pub user_config: VarMap,
    pub env: VarMap,
    /// The template's ports after the first.
    pub extra_ports: Vec<PortConfig>,
    /// The startup command with its placeholders resolved; none when the template has none.
    pub startup_command: Option<String>,
}

/// Works out port, memory, environment, extra ports and startup command of a new server.
pub fn plan_create(request: &CreateServerRequest, game: &GameConfig) -> (r: CreatePlan)
    ensures
        r.port == chosen_port(request.port, game.ports@),
        r.memory_mb == chosen_memory(request.memory_mb, *game),
        request.config.is_some() ==> r.user_config.pairs() == request.config.unwrap().pairs(),
        request.config.is_none() ==> r.user_config.pairs().len() == 0,
        r.env.pairs() == env_upto(game.variables@, r.memory_mb, r.port, r.user_config.pairs(), game.variables@.len() as int),
        r.extra_ports@ == game.ports@.subrange(if game.ports@.len() > 0 { 1 } else { 0 }, game.ports@.len() as int),
        game.startup@.len() == 0 ==> r.startup_command.is_none(),
        game.startup@.len() > 0 ==> r.startup_command.is_some() && r.startup_command.unwrap()@ == resolved_upto(game.startup@, r.env.pairs(), r.env.pairs().len() as int),
{
    let port = match request.port {
        Some(p) => p,
        None => if game.ports.len() > 0 { game.ports[0].container_port } else { 25565 },
    };
    let memory_mb = match request.memory_mb {
        Some(m) => m,
        None => game.recommended_ram_mb,
    };
    let user_config = match &request.config {
        Some(c) => {
            let c2 = c.clone();
            assert(c2.pairs() =~= c.pairs());
            c2
        },
        None => VarMap::new(),
    };
    let env = build_env_vars(game, memory_mb, port, &user_config);
    let mut extra_ports: Vec<PortConfig> = Vec::new();
    let mut i: usize = 1;
    let ghost lo: int = if game.ports@.len() > 0 { 1 } else { 0 };
    while i < game.ports.len()
        invariant
            1 <= i,
            lo <= i <= game.ports.len() || game.ports.len() == 0,
            game.ports.len() > 0 ==> extra_ports@ == game.ports@.subrange(1, i as int),
            game.ports.len() == 0 ==> extra_ports@.len() == 0,
            lo == if game.ports@.len() > 0 { 1int } else { 0int },
        decreases game.ports.len() - i,
    {
        extra_ports.push(game.ports[i].clone());
        assert(extra_ports@ =~= game.ports@.subrange(1, i + 1));
        i = i + 1;
    }
    assert(extra_ports@ =~= game.ports@.subrange(lo, game.ports@.len() as int));
    let startup_command = if game.startup.as_str().is_empty() {
        None
    } else {
        Some(resolve_startup(game.startup.as_str(), &env))
    };
    CreatePlan { port, memory_mb, user_config, env, extra_ports, startup_command }
}

/// Where a server's data lives: `<servers dir>/<game type>/<id>`.
pub open spec fn data_path_of(servers_dir: Seq<char>, game_type: Seq<char>, id: Seq<char>) -> Seq<char> {
    servers_dir + seq!['/'] + game_type + seq!['/'] + id
}

/// The data directory of a server.
pub fn server_data_path(servers_dir: &str, game_type: &GameType, id: &str) -> (r: String)
    ensures
        r@ == data_path_of(servers_dir@, game_type.0@, id@),
{
    let mut v = chars_of(servers_dir);
    v.push('/');
    append_chars(&mut v, &chars_of(game_type.0.as_str()));
    v.push('/');
    append_chars(&mut v, &chars_of(id));
    assert(v@ =~= data_path_of(servers_dir@, game_type.0@, id@));
    string_of(&v)
}

/// The registry file of a server: `<config dir>/<id>.json`.
pub open spec fn config_path_of(config_dir: Seq<char>, id: Seq<char>) -> Seq<char> {
    config_dir + seq!['/'] + id + ".json"@
}

/// The registry file of a server.
pub fn get_server_config_path(config_dir: &str, server_id: &str) -> (r: String)
    ensures
        r@ == config_path_of(config_dir@, server_id@),
{
    let mut v = chars_of(config_dir);
    v.push('/');
    append_chars(&mut v, &chars_of(server_id));
    append_chars(&mut v, &chars_of(".json"));
    assert(v@ =~= config_path_of(config_dir@, server_id@));
    string_of(&v)
}

/// The server that creation records: stopped, not installed, with its main container.
pub fn created_server(
    id: String,
    request: CreateServerRequest,
    plan: CreatePlan,
    data_path: String,
    container_id: String,
    created_at: Timestamp,
) -> (r: Server)
    ensures
        r.id == id,
        r.name == request.name,
        r.game_type == request.game_type,
        r.status == ServerStatus::Stopped,
        r.container_id == Some(container_id),
        r.port == plan.port,
        r.memory_mb == plan.memory_mb,
        r.data_path == data_path,
        r.created_at == created_at,
        r.config == plan.user_config,
        !r.installed,
        r.install_container_id.is_none(),
{
    Server {
        id,
        name: request.name,
        game_type: request.game_type,
        status: ServerStatus::Stopped,
        container_id: Some(container_id),
        port: plan.port,
        memory_mb: plan.memory_mb,
        data_path,
        created_at,
        config: plan.user_config,
        installed: false,
        install_container_id: None,
    }
}

// ---------------------------------------------------------------- install

/// Whether a template has an install step: a non-empty install script.
pub open spec fn has_install_script(game: GameConfig) -> bool {
    game.install_script.is_some() && game.install_script.unwrap()@.len() > 0
}

/// Whether a template has an install step.
pub fn template_has_install(game: &GameConfig) -> (r: bool)
    ensures
        r == has_install_script(*game),
{
    match &game.install_script {
        Some(s) => !s.as_str().is_empty(),
        None => false,
    }
}

/// Whether a server must be installed before it can start; an unknown template has no
/// install step.
pub fn check_needs_install(server: &Server, game: Option<&GameConfig>) -> (r: bool)
    ensures
        r == (!server.installed && game.is_some() && has_install_script(*game.unwrap())),
{
    if server.installed {
        return false;
    }
    match game {
        Some(g) => template_has_install(g),
        None => false,
    }
}

/// How to install a server of a template.
#[derive(Debug)]
pub enum InstallPlan {
    /// The template has no install script: the server counts as installed at once.
    Skip,
    /// Run `script` in a disposable container of `image`, with the data volume at `volume_path`.
    Run { script: String, image: String, volume_path: String },
}

/// Decides how to install a server of `game`: the install image defaults to the game's image.
pub fn install_plan(game: &GameConfig) -> (r: InstallPlan)
    ensures
        !has_install_script(*game) <==> r is Skip,
        r matches InstallPlan::Run { script, image, volume_path } ==> {
            &&& Some(script) == game.install_script
            &&& image == match game.install_image { Some(i) => i, None => game.docker_image }
            &&& volume_path == game.volume_path
        },
{
    match &game.install_script {
        Some(s) => {
            if s.as_str().is_empty() {
                InstallPlan::Skip
            } else {
                let image = match &game.install_image {
                    Some(i) => i.clone(),
                    None => game.docker_image.clone(),
                };
                InstallPlan::Run { script: s.clone(), image, volume_path: game.volume_path.clone() }
            }
        },
        None => InstallPlan::Skip,
    }
}

/// The server once it counts as installed without running anything.
pub open spec fn marked_installed(s: Server) -> Server {
    Server { installed: true, ..s }
}

/// Marks a server installed: its template has no install step.
pub fn mark_installed(server: Server) -> (r: Server)
    ensures
        r == marked_installed(server),
{
    Server { installed: true, ..server }
}

/// The server while its install runs.
pub open spec fn installing(s: Server) -> Server {
    Server { status: ServerStatus::Installing, ..s }
}

/// Sets a server to `Installing`, before the install container is created.
pub fn begin_install(server: Server) -> (r: Server)
    ensures
        r == installing(server),
{
    Server { status: ServerStatus::Installing, ..server }
}

/// The server once its install container exists.
pub open spec fn with_install_container(s: Server, container_id: String) -> Server {
    Server { install_container_id: Some(container_id), ..s }
}

/// Records the install container, before it is started, so that its logs can be found
/// again after a restart.
pub fn record_install_container(server: Server, container_id: String) -> (r: Server)
    ensures
        r == with_install_container(server, container_id),
{
    Server { install_container_id: Some(container_id), ..server }
}

/// The server once the install script has exited with `exit_code`: installed and stopped on
/// success; in error and not installed otherwise, its install container still recorded.
pub open spec fn install_finished(s: Server, exit_code: i64) -> Server {
    if exit_code == 0 {
        Server { installed: true, status: ServerStatus::Stopped, install_container_id: None, ..s }
    } else {
        Server { installed: false, status: ServerStatus::Error, ..s }
    }
}

/// Records how the install script exited.
pub fn finish_install(server: Server, exit_code: i64) -> (r: Server)
    ensures
        r == install_finished(server, exit_code),
{
    if exit_code == 0 {
        Server { installed: true, status: ServerStatus::Stopped, install_container_id: None, ..server }
    } else {
        Server { installed: false, status: ServerStatus::Error, ..server }
    }
}

/// The install container to remove as soon as the install script has exited: after a
/// success, the one that ran; after a failure, none, so that its logs stay retrievable
/// until the server is deleted or installed again.
pub fn install_container_to_remove(exit_code: i64, container_id: String) -> (r: Option<String>)
    ensures
        r == if exit_code == 0 { Some(container_id) } else { None::<String> },
{
    if exit_code == 0 {
        Some(container_id)
    } else {
        None
    }
}

/// Forgets the install container, once it has been cleaned up.
pub fn clear_install_container(server: Server) -> (r: Server)
    ensures
        r == (Server { install_container_id: None, ..server }),
{
    Server { install_container_id: None, ..server }
}

/// The message of a failed install.
pub open spec fn install_failure_message(exit_code: i64) -> Seq<char> {
    "Install script failed with exit code: "@ + signed_decimal(exit_code as int)
}

/// The outcome of an install command: the server on success, the failure otherwise.
pub fn install_outcome(server: Server, exit_code: i64) -> (r: Result<Server, String>)
    ensures
        exit_code == 0 <==> r is Ok,
        r is Ok ==> r->Ok_0 == server,
        r is Err ==> r->Err_0@ == install_failure_message(exit_code),
{
    if exit_code == 0 {
        Ok(server)
    } else {
        let mut v = chars_of("Install script failed with exit code: ");
        push_signed_decimal(&mut v, exit_code);
        Err(string_of(&v))
    }
}

/// After an install script exits non-zero the server is in error and not installed, and
/// the install container stays recorded until it is explicitly cleaned up.
pub proof fn failed_install_keeps_container(s: Server, container_id: String, exit_code: i64)
    requires
        exit_code != 0,
    ensures
        install_finished(with_install_container(installing(s), container_id), exit_code).status == ServerStatus::Error,
        !install_finished(with_install_container(installing(s), container_id), exit_code).installed,
        install_finished(with_install_container(installing(s), container_id), exit_code).install_container_id == Some(container_id),
{
}

/// After an install script exits zero the server is stopped, installed, and no install
/// container is recorded.
pub proof fn successful_install_is_clean(s: Server, container_id: String)
    ensures
        install_finished(with_install_container(installing(s), container_id), 0).status == ServerStatus::Stopped,
        install_finished(with_install_container(installing(s), container_id), 0).installed,
        install_finished(with_install_container(installing(s), container_id), 0).install_container_id.is_none(),
{
}

// ---------------------------------------------------------------- start

/// The first thing a start does.
#[derive(Debug, Clone, Copy, PartialEq, Eq, Structural)]
pub enum StartStep {
    /// Run the install step, then start.
    Install,
    /// Mark the server installed without running anything, then start.
    MarkInstalled,
    /// Start the main container at once.
    Launch,
}

/// What a start does first: a server not yet installed runs its template's install step, or
/// is marked installed when there is none.
pub open spec fn start_step_of(installed: bool, has_install: bool) -> StartStep {
    if installed {
        StartStep::Launch
    } else if has_install {
        StartStep::Install
    } else {
        StartStep::MarkInstalled
    }
}

/// Decides what a start does first.
pub fn start_step(server: &Server, game: Option<&GameConfig>) -> (r: StartStep)
    ensures
        r == start_step_of(server.installed, game.is_some() && has_install_script(*game.unwrap())),
{
    if server.installed {
        StartStep::Launch
    } else {
        let has_install = match game {
            Some(g) => template_has_install(g),
            None => false,
        };
        if has_install {
            StartStep::Install
        } else {
            StartStep::MarkInstalled
        }
    }
}

/// The main container to start; a server without one cannot start.
pub fn launch_target(server: &Server) -> (r: Result<String, String>)
    ensures
        server.container_id.is_some() <==> r is Ok,
        r is Ok ==> r->Ok_0 == server.container_id.unwrap(),
        r is Err ==> r->Err_0@ == "No container ID"@,
{
    match &server.container_id {
        Some(c) => Ok(c.clone()),
        None => Err("No container ID".to_string()),
    }
}

/// The outcome of a start once the runtime reported `status` after the settle delay: a
/// container that is stopped or in error means the start failed.
pub fn after_start(server: Server, status: ServerStatus) -> (r: Result<Server, String>)
    ensures
        (status == ServerStatus::Stopped || status == ServerStatus::Error) <==> r is Err,
        r is Ok ==> r->Ok_0 == (Server { status, ..server }),
        r is Err ==> r->Err_0@ == "Container failed to start"@,
{
    if status == ServerStatus::Stopped || status == ServerStatus::Error {
        Err("Container failed to start".to_string())
    } else {
        Ok(Server { status, ..server })
    }
}

// ---------------------------------------------------------------- stop

/// What a stop asks of the runtime.
#[derive(Debug)]
pub enum StopPlan {
    /// The server has no main container: nothing to do.
    Nothing,
    /// Send `stop_command` to the console first when there is one, wait, then stop the container.
    Stop { container_id: String, stop_command: Option<String> },
}

/// Decides how to stop a server: a graceful console command is sent first when its
/// template has one.
pub fn stop_plan(server: &Server, game: Option<&GameConfig>) -> (r: StopPlan)
    ensures
        server.container_id.is_none() <==> r is Nothing,
        r matches StopPlan::Stop { container_id, stop_command } ==> {
            &&& Some(container_id) == server.container_id
            &&& stop_command.is_some() <==> (game.is_some() && game.unwrap().stop_command@.len() > 0)
            &&& stop_command.is_some() ==> stop_command.unwrap() == game.unwrap().stop_command
        },
{
    match &server.container_id {
        None => StopPlan::Nothing,
        Some(c) => {
            let stop_command = match game {
                Some(g) => if !g.stop_command.as_str().is_empty() {
                    Some(g.stop_command.clone())
                } else {
                    None
                },
                None => None,
            };
            StopPlan::Stop { container_id: c.clone(), stop_command }
        },
    }
}

/// The result of a stop: `forced` is what the runtime answered to the forced stop, none
/// when nothing was asked of it.
pub open spec fn stop_result_of(s: Server, forced: Option<Result<(), String>>) -> Result<Server, String> {
    match forced {
        None => Ok(s),
        Some(Ok(())) => Ok(Server { status: ServerStatus::Stopped, ..s }),
        Some(Err(e)) => Err(e),
    }
}

/// Completes a stop.
pub fn finish_stop(server: Server, forced: Option<Result<(), String>>) -> (r: Result<Server, String>)
    ensures
        r == stop_result_of(server, forced),
{
    match forced {
        None => Ok(server),
        Some(Ok(())) => Ok(Server { status: ServerStatus::Stopped, ..server }),
        Some(Err(e)) => Err(e),
    }
}

/// Stopping a server without a main container asks nothing of the runtime and succeeds
/// with the server unchanged.
pub proof fn stop_without_container_is_noop(s: Server)
    requires
        s.container_id.is_none(),
    ensures
        stop_result_of(s, None) == Ok::<Server, String>(s),
{
}

// ---------------------------------------------------------------- delete, reinstall, update

/// One step of a multi-step command, in the order the caller must perform them.
#[derive(Debug, PartialEq, Eq)]
pub enum Action {
    /// Cancel the server's log stream.
    CancelStream,
    /// Stop the main container, ignoring failure.
    StopContainer(String),
    /// Remove the main container, ignoring failure.
    RemoveContainer(String),
    /// Remove the install container, ignoring failure.
    RemoveInstallContainer(String),
    /// Delete every file and directory under the server's data path.
    ClearData,
    /// Delete the server's data directory itself.
    RemoveDataDir,
    /// Delete the registry entry.
    RemoveRecord,
    /// Write the server, installed flag reset and stopped, to the registry.
    SaveReset,
    /// Run the install step.
    RunInstall,
}

/// The steps of a delete: `delete_data` defaults to removing the data.
pub open spec fn delete_actions_of(s: Server, delete_data: Option<bool>) -> Seq<Action> {
    let a = seq![Action::CancelStream];
    let b = match s.container_id {
        Some(c) => a + seq![Action::StopContainer(c), Action::RemoveContainer(c)],
        None => a,
    };
    let c = match s.install_container_id {
        Some(i) => b + seq![Action::RemoveInstallContainer(i)],
        None => b,
    };
    let d = c + seq![Action::RemoveRecord];
    if delete_data != Some(false) {
        d + seq![Action::RemoveDataDir]
    } else {
        d
    }
}

/// The steps of deleting a server.
pub fn delete_actions(server: &Server, delete_data: Option<bool>) -> (r: Vec<Action>)
    ensures
        r@ == delete_actions_of(*server, delete_data),
{
    let mut r: Vec<Action> = Vec::new();
    r.push(Action::CancelStream);
    match &server.container_id {
        Some(c) => {
            r.push(Action::StopContainer(c.clone()));
            r.push(Action::RemoveContainer(c.clone()));
        },
        None => {},
    }
    match &server.install_container_id {
        Some(i) => r.push(Action::RemoveInstallContainer(i.clone())),
        None => {},
    }
    r.push(Action::RemoveRecord);
    let remove_data = match delete_data {
        Some(d) => d,
        None => true,
    };
    if remove_data {
        r.push(Action::RemoveDataDir);
    }
    assert(r@ =~= delete_actions_of(*server, delete_data));
    r
}

/// The steps of a reinstall: stop everything, clear the data, record the reset, install.
pub open spec fn reinstall_actions_of(s: Server) -> Seq<Action> {
    let a = seq![Action::CancelStream];
    let b = match s.container_id {
        Some(c) => a + seq![Action::StopContainer(c)],
        None => a,
    };
    b + seq![Action::ClearData, Action::SaveReset, Action::RunInstall]
}

/// The steps of reinstalling a server.
pub fn reinstall_actions(server: &Server) -> (r: Vec<Action>)
    ensures
        r@ == reinstall_actions_of(*server),
{
    let mut r: Vec<Action> = Vec::new();
    r.push(Action::CancelStream);
    match &server.container_id {
        Some(c) => r.push(Action::StopContainer(c.clone())),
        None => {},
    }
    r.push(Action::ClearData);
    r.push(Action::SaveReset);
    r.push(Action::RunInstall);
    assert(r@ =~= reinstall_actions_of(*server));
    r
}

/// The server a reinstall records before installing again.
pub open spec fn reset_for_reinstall_of(s: Server) -> Server {
    Server { installed: false, status: ServerStatus::Stopped, ..s }
}

/// Resets a server before it is installed again.
pub fn reset_for_reinstall(server: Server) -> (r: Server)
    ensures
        r == reset_for_reinstall_of(server),
{
    Server { installed: false, status: ServerStatus::Stopped, ..server }
}

/// Whatever state a server is in, a reinstall clears the data, and records the server as
/// not installed, before the install step runs again; the install step runs last.
pub proof fn reinstall_clears_before_install(s: Server)
    ensures
        ({
            let acts = reinstall_actions_of(s);
            exists|i: int, j: int, k: int|
                0 <= i < j < k == acts.len() - 1
                && acts[i] is ClearData && acts[j] is SaveReset && acts[k] is RunInstall
        }),
        !reset_for_reinstall_of(s).installed,
{
    let acts = reinstall_actions_of(s);
    let n = acts.len() as int;
    assert(acts[n - 3] is ClearData && acts[n - 2] is SaveReset && acts[n - 1] is RunInstall);
}

/// The steps of an update: stop everything and install over the existing data.
pub open spec fn update_actions_of(s: Server) -> Seq<Action> {
    let a = seq![Action::CancelStream];
    let b = match s.container_id {
        Some(c) => a + seq![Action::StopContainer(c)],
        None => a,
    };
    b + seq![Action::RunInstall]
}

/// The steps of updating a server's game.
pub fn update_actions(server: &Server) -> (r: Vec<Action>)
    ensures
        r@ == update_actions_of(*server),
{
    let mut r: Vec<Action> = Vec::new();
    r.push(Action::CancelStream);
    match &server.container_id {
        Some(c) => r.push(Action::StopContainer(c.clone())),
        None => {},
    }
    r.push(Action::RunInstall);
    assert(r@ =~= update_actions_of(*server));
    r
}

// ---------------------------------------------------------------- records, queries

/// Records a newly created server, stamped with the current time.
pub fn record_new_server(
    id: String,
    request: CreateServerRequest,
    plan: CreatePlan,
    data_path: String,
    container_id: String,
) -> (r: Server)
    ensures
        r.id == id,
        r.name == request.name,
        r.game_type == request.game_type,
        r.status == ServerStatus::Stopped,
        r.container_id == Some(container_id),
        r.port == plan.port,
        r.memory_mb == plan.memory_mb,
        r.data_path == data_path,
        r.config == plan.user_config,
        !r.installed,
        r.install_container_id.is_none(),
{
    let now = crate::runtime::now_utc();
    created_server(id, request, plan, data_path, container_id, now)
}

/// The status a status query reports, given what the runtime said of the main container
/// (asked only when `needs_runtime_query` holds).
pub fn server_status(server: &Server, runtime: ServerStatus) -> (r: ServerStatus)
    ensures
        r == crate::status::queried_status(server.status, server.container_id.is_some(), runtime),
{
    crate::status::query_status(server.status, server.container_id.is_some(), runtime)
}

/// The server as a listing shows it: unless it is installing, a server with a main
/// container takes the runtime's status, or `Error` when the runtime could not be asked.
pub open spec fn listed_of(s: Server, runtime: Result<ServerStatus, String>) -> Server {
    if s.status != ServerStatus::Installing && s.container_id.is_some() {
        Server {
            status: match runtime {
                Ok(st) => st,
                Err(_) => ServerStatus::Error,
            },
            ..s
        }
    } else {
        s
    }
}

/// Refreshes a listed server's status.
pub fn refresh_listed(server: Server, runtime: Result<ServerStatus, String>) -> (r: Server)
    ensures
        r == listed_of(server, runtime),
{
    if server.status != ServerStatus::Installing && server.container_id.is_some() {
        let status = match runtime {
            Ok(st) => st,
            Err(_) => ServerStatus::Error,
        };
        Server { status, ..server }
    } else {
        server
    }
}

/// Whether `a` is no earlier than `b`.
pub open spec fn not_before(a: Timestamp, b: Timestamp) -> bool {
    a.secs > b.secs || (a.secs == b.secs && a.nanos >= b.nanos)
}

/// Newest first.
pub open spec fn newest_first(ss: Seq<Server>) -> bool {
    forall|i: int, j: int| 0 <= i < j < ss.len() ==> not_before(ss[i].created_at, ss[j].created_at)
}

/// Orders servers newest first.
pub fn sort_newest_first(servers: Vec<Server>) -> (r: Vec<Server>)
    ensures
        newest_first(r@),
        r@.to_multiset() == servers@.to_multiset(),
{
    let ghost all = servers@;
    let mut rest = servers;
    let mut out: Vec<Server> = Vec::new();
    proof {
        assert(out@.to_multiset() =~= vstd::multiset::Multiset::<Server>::empty()) by {
            broadcast use vstd::seq_lib::to_multiset_len;
            assert(out@.to_multiset().len() == 0);
        }
    }
    while rest.len() > 0
        invariant
            newest_first(out@),
            out@.to_multiset().add(rest@.to_multiset()) == all.to_multiset(),
        decreases rest.len(),
    {
        let ghost before = rest@;
        let x = rest.pop().unwrap();
        assert(before == rest@.push(x));
        let mut p: usize = 0;
        while p < out.len() && not_before_exec(&out[p].created_at, &x.created_at)
            invariant
                p <= out.len(),
                forall|k: int| 0 <= k < p ==> not_before(out@[k].created_at, x.created_at),
            decreases out.len() - p,
        {
            p = p + 1;
        }
        let ghost o = out@;
        out.insert(p, x);
        assert(out@ == o.insert(p as int, x));
        assert(newest_first(out@)) by {
            assert forall|i: int, j: int| 0 <= i < j < out@.len() implies not_before(out@[i].created_at, out@[j].created_at) by {
                if p < o.len() {
                    assert(!not_before(o[p as int].created_at, x.created_at));
                }
                if i < p && j == p {
                } else if i == p && j > p {
                    assert(out@[j] == o[j - 1]);
                    assert(not_before(o[p as int].created_at, o[j - 1].created_at));
                } else if i < p && j > p {
                    assert(out@[j] == o[j - 1]);
                } else if j < p {
                } else {
                    assert(out@[i] == o[i - 1] && out@[j] == o[j - 1]);
                }
            }
        }
        proof {
            broadcast use vstd::multiset::group_multiset_axioms;
            vstd::seq_lib::to_multiset_insert(o, p as int, x);
            vstd::seq_lib::to_multiset_build(rest@, x);
            assert(out@.to_multiset().add(rest@.to_multiset()) =~= o.to_multiset().add(before.to_multiset()));
        }
    }
    assert(rest@ =~= Seq::<Server>::empty());
    proof {
        broadcast use vstd::seq_lib::to_multiset_len;
        assert(rest@.to_multiset().len() == 0);
        broadcast use vstd::multiset::group_multiset_axioms;
        assert(rest@.to_multiset() =~= vstd::multiset::Multiset::<Server>::empty());
        assert(out@.to_multiset() =~= out@.to_multiset().add(rest@.to_multiset()));
    }
    out
}

fn not_before_exec(a: &Timestamp, b: &Timestamp) -> (r: bool)
    ensures
        r == not_before(*a, *b),
{
    a.secs > b.secs || (a.secs == b.secs && a.nanos >= b.nanos)
}

/// Where a log request is answered from.
#[derive(Debug, PartialEq, Eq)]
pub enum LogSource {
    /// The install container of an installing server.
    Install(String),
    /// An installing server whose install container is not recorded yet: a placeholder line.
    InstallPending,
    /// The main container.
    Main(String),
    /// No container to read from.
    NoContainer,
}

/// Lines fetched when a log request names no number.
pub const DEFAULT_LOG_LINES: u32 = 500;

/// Picks where a server's logs come from: an installing server shows its install output.
pub fn log_source(server: &Server) -> (r: LogSource)
    ensures
        server.status == ServerStatus::Installing ==> match server.install_container_id {
            Some(i) => r == LogSource::Install(i),
            None => r is InstallPending,
        },
        server.status != ServerStatus::Installing ==> match server.container_id {
            Some(c) => r == LogSource::Main(c),
            None => r is NoContainer,
        },
{
    if server.status == ServerStatus::Installing {
        match &server.install_container_id {
            Some(i) => LogSource::Install(i.clone()),
            None => LogSource::InstallPending,
        }
    } else {
        match &server.container_id {
            Some(c) => LogSource::Main(c.clone()),
            None => LogSource::NoContainer,
        }
    }
}

/// The line shown while an install has no output to show.
pub fn install_placeholder() -> (r: String)
    ensures
        r@ == "[Serverwave] Installation in progress..."@,
{
    "[Serverwave] Installation in progress...".to_string()
}

/// The main container to follow when a client attaches: none while installing (install
/// output is emitted separately) or without a main container.
pub fn attach_target(server: &Server) -> (r: Option<String>)
    ensures
        r == if server.status == ServerStatus::Installing { None } else { server.container_id },
{
    if server.status == ServerStatus::Installing {
        None
    } else {
        match &server.container_id {
            Some(c) => Some(c.clone()),
            None => None,
        }
    }
}

/// Whether an attach goes on to stream, given the main container's status: only a running
/// container is followed.
pub fn attach_streams(status: ServerStatus) -> (r: bool)
    ensures
        r == (status == ServerStatus::Running),
{
    status == ServerStatus::Running
}

/// The command run inside the container when its stdin cannot be attached: the image's
/// console helper, given the command.
pub fn console_fallback_command(command: &str) -> (r: Vec<String>)
    ensures
        r@.len() == 2,
        r@[0]@ == "mc-send-to-console"@,
        r@[1]@ == command@,
{
    let mut v: Vec<String> = Vec::new();
    v.push("mc-send-to-console".to_string());
    v.push(command.to_string());
    v
}

} // verus!
