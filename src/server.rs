//! Decisions of the server manager: which configurations are accepted,
//! when a start may go ahead, what the process is given, and how the
//! shared state follows starts, stops and crashes.
use crate::state::{server_probe_pid, server_probe_spec, update_server_status, IpcState};
use crate::text::{decimal, decimal_string};
use vstd::prelude::*;

verus! {

pub const MIN_CTX_SIZE: u32 = 6000;

pub const MAX_CTX_SIZE: u32 = 100000;

pub const MAX_GPU_LAYERS: u32 = 41;

/// Configuration for one start of the server.
#[derive(Clone, Copy, Debug, PartialEq, Eq, Structural)]
pub struct ServerConfig {
    pub port: u16,
    pub ctx_size: u32,
    pub gpu_layers: u32,
}

impl Default for ServerConfig {
    fn default() -> (r: ServerConfig)
        ensures
            r == (ServerConfig { port: 10345, ctx_size: 8192, gpu_layers: 0 }),
    {
        ServerConfig { port: 10345, ctx_size: 8192, gpu_layers: 0 }
    }
}

/// A configuration value out of its range.
#[derive(Clone, Copy, Debug, PartialEq, Eq, Structural)]
pub enum ConfigError {
    CtxSizeOutOfRange,
    GpuLayersOutOfRange,
}

impl ConfigError {
    pub fn message(&self) -> (r: &'static str)
        ensures
            r@ == match self {
                ConfigError::CtxSizeOutOfRange => "Context size must be between 6000 and 100000"@,
                ConfigError::GpuLayersOutOfRange => "GPU layers must be between 0 and 41"@,
            },
    {
        match self {
            ConfigError::CtxSizeOutOfRange => "Context size must be between 6000 and 100000",
            ConfigError::GpuLayersOutOfRange => "GPU layers must be between 0 and 41",
        }
    }
}

pub open spec fn ctx_size_valid(ctx_size: u32) -> bool {
    MIN_CTX_SIZE <= ctx_size <= MAX_CTX_SIZE
}

pub open spec fn config_valid(config: ServerConfig) -> bool {
    ctx_size_valid(config.ctx_size) && config.gpu_layers <= MAX_GPU_LAYERS
}

/// Accept a context size in 6000 ..= 100000 and at most 41 GPU layers;
/// the context size is checked first.
pub fn validate_config(config: &ServerConfig) -> (r: Result<(), ConfigError>)
    ensures
        r is Ok <==> config_valid(*config),
        r == Err::<(), ConfigError>(ConfigError::CtxSizeOutOfRange) <==> !ctx_size_valid(
            config.ctx_size,
        ),
        r == Err::<(), ConfigError>(ConfigError::GpuLayersOutOfRange) <==> (ctx_size_valid(
            config.ctx_size,
        ) && config.gpu_layers > MAX_GPU_LAYERS),
{
    if config.ctx_size < MIN_CTX_SIZE || config.ctx_size > MAX_CTX_SIZE {
        return Err(ConfigError::CtxSizeOutOfRange);
    }
    if config.gpu_layers > MAX_GPU_LAYERS {
        return Err(ConfigError::GpuLayersOutOfRange);
    }
    Ok(())
}

/// The document after a crash of the server was noticed, or after a stop:
/// not running, no pid.
pub open spec fn healed(state: IpcState) -> IpcState {
    IpcState { server_running: false, server_pid: None, ..state }
}

/// The document after a status query that got `pid_alive` from the
/// operating system: healed when it claimed a running server that is not
/// alive, else unchanged.
pub open spec fn after_status(state: IpcState, pid_alive: bool) -> IpcState {
    if state.server_running && !(server_probe_spec(state).is_some() && pid_alive) {
        healed(state)
    } else {
        state
    }
}

/// Current server status: whether it runs and the recorded pid.
///
/// `pid_alive` is the operating system's answer for `server_probe_pid`.
/// When the document claims a running server that the operating system
/// does not know, the document is corrected to not running.
pub fn get_status(state: &mut IpcState, pid_alive: bool) -> (r: (bool, Option<u32>))
    ensures
        r.0 == (server_probe_spec(*old(state)).is_some() && pid_alive),
        r.1 == old(state).server_pid,
        *final(state) == after_status(*old(state), pid_alive),
{
    let pid = state.server_pid;
    let is_running = match server_probe_pid(state) {
        Some(_) => pid_alive,
        None => false,
    };
    if state.server_running && !is_running {
        update_server_status(state, false, None);
    }
    (is_running, pid)
}

/// The pid of a server that really runs, if any.
///
/// `pid_alive` is the operating system's answer for `server_probe_pid`.
/// A document that claims a running server whose pid is missing or
/// unknown to the operating system is corrected to not running.
pub fn check_server_running(state: &mut IpcState, pid_alive: bool) -> (r: Option<u32>)
    ensures
        r == (if pid_alive { server_probe_spec(*old(state)) } else { None }),
        *final(state) == after_status(*old(state), pid_alive),
{
    match server_probe_pid(state) {
        Some(pid) => {
            if pid_alive {
                Some(pid)
            } else {
                update_server_status(state, false, None);
                None
            }
        },
        None => {
            if state.server_running {
                update_server_status(state, false, None);
            }
            None
        },
    }
}

/// The document after a server was spawned under `pid` with `config`.
pub open spec fn started(state: IpcState, pid: u32, config: ServerConfig) -> IpcState {
    IpcState {
        server_running: true,
        server_pid: Some(pid),
        server_port: Some(config.port),
        server_ctx_size: Some(config.ctx_size),
        server_gpu_layers: Some(config.gpu_layers),
        ..state
    }
}

/// Record a server spawned under `pid` with `config`.
pub fn record_started(state: &mut IpcState, pid: u32, config: &ServerConfig)
    ensures
        *final(state) == started(*old(state), pid, *config),
{
    update_server_status(state, true, Some(pid));
    state.server_port = Some(config.port);
    state.server_ctx_size = Some(config.ctx_size);
    state.server_gpu_layers = Some(config.gpu_layers);
}

/// The document after a stop: every server field cleared.
pub open spec fn stopped(state: IpcState) -> IpcState {
    IpcState {
        server_running: false,
        server_pid: None,
        server_port: None,
        server_ctx_size: None,
        server_gpu_layers: None,
        ..state
    }
}

/// Clear every server field; done on each stop, whether or not a process
/// was found.
pub fn record_stopped(state: &mut IpcState)
    ensures
        *final(state) == stopped(*old(state)),
{
    update_server_status(state, false, None);
    state.server_port = None;
    state.server_ctx_size = None;
    state.server_gpu_layers = None;
}

/// Why a start was refused.
#[derive(Clone, Debug, PartialEq, Eq)]
pub enum StartError {
    InvalidConfig(ConfigError),
    /// A server already runs under this pid.
    AlreadyRunning(u32),
    /// The server binary is not installed.
    BinaryMissing,
    /// The active model (named here) is not installed.
    ModelMissing(String),
}

/// Decide whether a start may go ahead, in this order: the configuration
/// is valid, no server runs (`running_pid` from `check_server_running`),
/// the binary is installed, the model is installed.
pub fn start_precheck(
    config: &ServerConfig,
    running_pid: Option<u32>,
    binary_exists: bool,
    model_exists: bool,
    active_model: &String,
) -> (r: Result<(), StartError>)
    ensures
        r is Ok <==> (config_valid(*config) && running_pid is None && binary_exists
            && model_exists),
        !ctx_size_valid(config.ctx_size) ==> r == Err::<(), StartError>(
            StartError::InvalidConfig(ConfigError::CtxSizeOutOfRange),
        ),
        ctx_size_valid(config.ctx_size) && config.gpu_layers > MAX_GPU_LAYERS ==> r == Err::<
            (),
            StartError,
        >(StartError::InvalidConfig(ConfigError::GpuLayersOutOfRange)),
        config_valid(*config) && running_pid is Some ==> r == Err::<(), StartError>(
            StartError::AlreadyRunning(running_pid->0),
        ),
        config_valid(*config) && running_pid is None && !binary_exists ==> r == Err::<
            (),
            StartError,
        >(StartError::BinaryMissing),
        config_valid(*config) && running_pid is None && binary_exists && !model_exists ==> (
        r is Err && r->Err_0 is ModelMissing && r->Err_0->ModelMissing_0@ == active_model@),
{
    match validate_config(config) {
        Err(e) => {
            return Err(StartError::InvalidConfig(e));
        },
        Ok(()) => {},
    }
    if let Some(pid) = running_pid {
        return Err(StartError::AlreadyRunning(pid));
    }
    if !binary_exists {
        return Err(StartError::BinaryMissing);
    }
    if !model_exists {
        return Err(StartError::ModelMissing(active_model.clone()));
    }
    Ok(())
}

/// The arguments the server process is started with.
pub open spec fn server_args_spec(config: ServerConfig, model_path: Seq<char>) -> Seq<Seq<char>> {
    seq![
        "-m"@,
        model_path,
        "--port"@,
        decimal(config.port as nat),
        "--ctx-size"@,
        decimal(config.ctx_size as nat),
        "--n-gpu-layers"@,
        decimal(config.gpu_layers as nat),
        "--flash-attn"@,
        "auto"@,
        "--batch-size"@,
        "2048"@,
        "--ubatch-size"@,
        "512"@,
    ]
}

/// The command line for the server: the model, the configuration and the
/// fixed batching options.
pub fn server_args(config: &ServerConfig, model_path: &String) -> (r: Vec<String>)
    ensures
        r@.map_values(|s: String| s@) == server_args_spec(*config, model_path@),
{
    let mut v: Vec<String> = Vec::new();
    v.push(String::from_str("-m"));
    v.push(model_path.clone());
    v.push(String::from_str("--port"));
    v.push(decimal_string(config.port as u64));
    v.push(String::from_str("--ctx-size"));
    v.push(decimal_string(config.ctx_size as u64));
    v.push(String::from_str("--n-gpu-layers"));
    v.push(decimal_string(config.gpu_layers as u64));
    v.push(String::from_str("--flash-attn"));
    v.push(String::from_str("auto"));
    v.push(String::from_str("--batch-size"));
    v.push(String::from_str("2048"));
    v.push(String::from_str("--ubatch-size"));
    v.push(String::from_str("512"));
    assert(v@.map_values(|s: String| s@) =~= server_args_spec(*config, model_path@));
    v
}

/// A start followed at once by a status query: the server is reported
/// running under the spawned pid, and the document holds the applied port,
/// context size and GPU layers.
pub proof fn lemma_start_then_status(state: IpcState, pid: u32, config: ServerConfig)
    requires
        config_valid(config),
    ensures
        server_probe_spec(started(state, pid, config)) == Some(pid),
        started(state, pid, config).server_port == Some(config.port),
        started(state, pid, config).server_ctx_size == Some(config.ctx_size),
        started(state, pid, config).server_gpu_layers == Some(config.gpu_layers),
{
}

/// Stopping is idempotent: a second stop changes nothing, and after any
/// stop every server field is clear.
pub proof fn lemma_stop_idempotent(state: IpcState)
    ensures
        stopped(stopped(state)) == stopped(state),
        stopped(state).server_running == false,
        stopped(state).server_pid is None,
        stopped(state).server_port is None,
        stopped(state).server_ctx_size is None,
        stopped(state).server_gpu_layers is None,
        server_probe_spec(stopped(state)) is None,
{
}

/// Self-healing: a status query on a document that claims a running
/// server whose pid the operating system does not know reports not
/// running and leaves a document that claims no server; every later query
/// then reports not running and changes nothing.
pub proof fn lemma_self_heal(state: IpcState, later_alive: bool)
    requires
        state.server_running,
    ensures
        after_status(state, false).server_running == false,
        after_status(state, false).server_pid is None,
        server_probe_spec(after_status(state, false)) is None,
        after_status(after_status(state, false), later_alive) == after_status(state, false),
{
}

} // verus!
