//! The messaging host's logic: command dispatch, the shape of responses,
//! the data each query answers with, and edge-triggered status pushes.
use crate::server::{after_status, get_status, record_stopped, stopped};
use crate::state::{
    app_probe_spec, is_tauri_app_running, server_probe_pid, server_probe_spec, IpcState,
};
use crate::text::{decimal, decimal_string, joined, same_text};
use vstd::prelude::*;

verus! {

/// The commands the host understands.
#[derive(Clone, Copy, Debug, PartialEq, Eq, Structural)]
pub enum Command {
    StartServer,
    StopServer,
    GetServerStatus,
    IsDownloading,
    GetAppStatus,
    LaunchApp,
}

/// The command that a request's `command` string names.
pub open spec fn command_spec(name: Seq<char>) -> Option<Command> {
    if name == "start_server"@ {
        Some(Command::StartServer)
    } else if name == "stop_server"@ {
        Some(Command::StopServer)
    } else if name == "get_server_status"@ {
        Some(Command::GetServerStatus)
    } else if name == "isDownloading"@ {
        Some(Command::IsDownloading)
    } else if name == "get_app_status"@ {
        Some(Command::GetAppStatus)
    } else if name == "launch_app"@ {
        Some(Command::LaunchApp)
    } else {
        None
    }
}

/// Look a command up by name; `None` for a name the host does not know.
pub fn parse_command(name: &str) -> (r: Option<Command>)
    ensures
        r == command_spec(name@),
{
    if same_text(name, "start_server") {
        Some(Command::StartServer)
    } else if same_text(name, "stop_server") {
        Some(Command::StopServer)
    } else if same_text(name, "get_server_status") {
        Some(Command::GetServerStatus)
    } else if same_text(name, "isDownloading") {
        Some(Command::IsDownloading)
    } else if same_text(name, "get_app_status") {
        Some(Command::GetAppStatus)
    } else if same_text(name, "launch_app") {
        Some(Command::LaunchApp)
    } else {
        None
    }
}

/// The error text for a command the host does not know.
pub fn unknown_command_error(name: &str) -> (r: String)
    ensures
        r@ == "Unknown command: "@ + name@,
{
    joined("Unknown command: ", name)
}

/// What a successful command answers with.
#[derive(Clone, Copy, Debug, PartialEq, Eq, Structural)]
pub enum ResponseData {
    ServerStarted { pid: u32, port: u16 },
    /// `pid` is present when a server started elsewhere was stopped.
    ServerStopped { pid: Option<u32> },
    ServerStatus {
        is_running: bool,
        pid: Option<u32>,
        port: Option<u16>,
        ctx_size: Option<u32>,
        gpu_layers: Option<u32>,
    },
    /// `progress` in hundredths of a percent.
    Downloading { is_downloading: bool, progress: Option<u32> },
    AppStatus { is_running: bool, pid: Option<u32>, last_heartbeat: Option<u64> },
    AppLaunch { launched: bool },
}

/// The text shown to the user for each answer.
pub open spec fn message_spec(d: ResponseData) -> Seq<char> {
    match d {
        ResponseData::ServerStarted { pid, port } => "Server started on port "@ + decimal(
            port as nat,
        ) + " (PID: "@ + decimal(pid as nat) + ")"@,
        ResponseData::ServerStopped { pid } => match pid {
            Some(p) => "Server stopped (PID: "@ + decimal(p as nat) + ")"@,
            None => "Server stopped"@,
        },
        ResponseData::ServerStatus { is_running, .. } => if is_running {
            "Server is running"@
        } else {
            "Server is not running"@
        },
        ResponseData::Downloading { .. } => Seq::empty(),
        ResponseData::AppStatus { is_running, .. } => if is_running {
            "App is running"@
        } else {
            "App is not running"@
        },
        ResponseData::AppLaunch { launched } => if launched {
            "App launched successfully"@
        } else {
            "App is already running"@
        },
    }
}

impl ResponseData {
    /// The message that goes with this answer (empty for the download
    /// query, which carries none).
    pub fn message(&self) -> (r: String)
        ensures
            r@ == message_spec(*self),
    {
        match *self {
            ResponseData::ServerStarted { pid, port } => {
                let a = joined("Server started on port ", decimal_string(port as u64).as_str());
                let b = a.concat(" (PID: ");
                let c = b.concat(decimal_string(pid as u64).as_str());
                c.concat(")")
            },
            ResponseData::ServerStopped { pid } => match pid {
                Some(p) => joined("Server stopped (PID: ", decimal_string(p as u64).as_str()).concat(")"),
                None => String::from_str("Server stopped"),
            },
            ResponseData::ServerStatus { is_running, .. } => if is_running {
                String::from_str("Server is running")
            } else {
                String::from_str("Server is not running")
            },
            ResponseData::Downloading { .. } => String::new(),
            ResponseData::AppStatus { is_running, .. } => if is_running {
                String::from_str("App is running")
            } else {
                String::from_str("App is not running")
            },
            ResponseData::AppLaunch { launched } => if launched {
                String::from_str("App launched successfully")
            } else {
                String::from_str("App is already running")
            },
        }
    }
}

/// The answer to `launch_app`: nothing is done when the application
/// already runs; otherwise it is launched when one of the platform's
/// attempts started a process (`started`), and the request fails when the
/// platform has no way (`has_plan` false) or every attempt failed.
pub fn launch_outcome(already_running: bool, has_plan: bool, started: bool, os: &str) -> (r: Result<
    ResponseData,
    String,
>)
    ensures
        already_running ==> r == Ok::<ResponseData, String>(
            ResponseData::AppLaunch { launched: false },
        ),
        !already_running && has_plan && started ==> r == Ok::<ResponseData, String>(
            ResponseData::AppLaunch { launched: true },
        ),
        !already_running && !has_plan ==> r is Err && r->Err_0@ == "Platform not supported"@,
        !already_running && has_plan && !started ==> r is Err && r->Err_0@ == if os@ == "macos"@ {
            "Failed to launch app"@
        } else {
            "Could not find Sigma Eclipse LLM executable"@
        },
{
    if already_running {
        Ok(ResponseData::AppLaunch { launched: false })
    } else if !has_plan {
        Err(String::from_str("Platform not supported"))
    } else if started {
        Ok(ResponseData::AppLaunch { launched: true })
    } else if same_text(os, "macos") {
        Err(String::from_str("Failed to launch app"))
    } else {
        Err(String::from_str("Could not find Sigma Eclipse LLM executable"))
    }
}

/// A request as read from the peer.
#[derive(Clone, Debug)]
pub struct NativeMessage {
    pub id: String,
    pub command: String,
}

/// A response: the request's id, and either data (on success) or an error
/// text (on failure), never both.
#[derive(Clone, Debug)]
pub struct NativeResponse {
    pub id: String,
    pub success: bool,
    pub data: Option<ResponseData>,
    pub error: Option<String>,
}

impl NativeResponse {
    /// Exactly one of data and error is present, as `success` says.
    pub open spec fn well_formed(&self) -> bool {
        &&& self.success <==> self.data is Some
        &&& self.success <==> self.error is None
    }
}

/// The response for request `id` and the outcome of its command.
pub fn respond(id: String, outcome: Result<ResponseData, String>) -> (r: NativeResponse)
    ensures
        r.well_formed(),
        r.id == id,
        r.success == outcome is Ok,
        outcome is Ok ==> r.data == Some(outcome->Ok_0),
        outcome is Err ==> r.error == Some(outcome->Err_0),
{
    match outcome {
        Ok(data) => NativeResponse { id, success: true, data: Some(data), error: None },
        Err(e) => NativeResponse { id, success: false, data: None, error: Some(e) },
    }
}

/// Answer `get_server_status`: whether the server runs (healing the
/// document as `get_status` does) and the configuration it runs with.
/// `pid_alive` is the operating system's answer for `server_probe_pid`.
pub fn handle_get_server_status(state: &mut IpcState, pid_alive: bool) -> (r: ResponseData)
    ensures
        r == (ResponseData::ServerStatus {
            is_running: server_probe_spec(*old(state)).is_some() && pid_alive,
            pid: old(state).server_pid,
            port: old(state).server_port,
            ctx_size: old(state).server_ctx_size,
            gpu_layers: old(state).server_gpu_layers,
        }),
        *final(state) == after_status(*old(state), pid_alive),
{
    let (is_running, pid) = get_status(state, pid_alive);
    ResponseData::ServerStatus {
        is_running,
        pid,
        port: state.server_port,
        ctx_size: state.server_ctx_size,
        gpu_layers: state.server_gpu_layers,
    }
}

/// Which server a `stop_server` request ends.
#[derive(Clone, Copy, Debug, PartialEq, Eq, Structural)]
pub enum StopTarget {
    /// The server this host spawned and holds.
    Local(u32),
    /// A server that another process started and that really runs.
    Shared(u32),
}

/// Choose what a stop ends: the server this host spawned (`local_pid`),
/// else one that runs elsewhere (`running_pid`, from
/// `check_server_running`, asked only when there is no local one); with
/// neither the request fails.
pub fn stop_target(local_pid: Option<u32>, running_pid: Option<u32>) -> (r: Result<StopTarget, String>)
    ensures
        match local_pid {
            Some(p) => r == Ok::<StopTarget, String>(StopTarget::Local(p)),
            None => match running_pid {
                Some(q) => r == Ok::<StopTarget, String>(StopTarget::Shared(q)),
                None => r is Err && r->Err_0@ == "Server is not running"@,
            },
        },
{
    match local_pid {
        Some(p) => Ok(StopTarget::Local(p)),
        None => match running_pid {
            Some(q) => Ok(StopTarget::Shared(q)),
            None => Err(String::from_str("Server is not running")),
        },
    }
}

/// Handle a `stop_server` request against the document: choose what it
/// ends as `stop_target` does (`pid_alive` is the operating system's
/// answer for `server_probe_pid`, needed only without a local server) and
/// clear every server field, whatever was found. The caller then signals
/// the chosen pid.
pub fn stop_request(state: &mut IpcState, local_pid: Option<u32>, pid_alive: bool) -> (r: Result<
    StopTarget,
    String,
>)
    ensures
        *final(state) == stopped(*old(state)),
        match local_pid {
            Some(p) => r == Ok::<StopTarget, String>(StopTarget::Local(p)),
            None => if pid_alive && server_probe_spec(*old(state)) is Some {
                r == Ok::<StopTarget, String>(StopTarget::Shared(server_probe_spec(*old(state))->0))
            } else {
                r is Err && r->Err_0@ == "Server is not running"@
            },
        },
{
    let running = match local_pid {
        Some(_) => None,
        None => {
            if pid_alive {
                server_probe_pid(state)
            } else {
                None
            }
        },
    };
    record_stopped(state);
    stop_target(local_pid, running)
}

/// The answer to a stop of `target`.
pub fn stopped_data(target: StopTarget) -> (r: ResponseData)
    ensures
        r == match target {
            StopTarget::Local(_) => ResponseData::ServerStopped { pid: None },
            StopTarget::Shared(q) => ResponseData::ServerStopped { pid: Some(q) },
        },
{
    match target {
        StopTarget::Local(_) => ResponseData::ServerStopped { pid: None },
        StopTarget::Shared(q) => ResponseData::ServerStopped { pid: Some(q) },
    }
}

/// Answer `isDownloading` from the document.
pub fn handle_is_downloading(state: &IpcState) -> (r: ResponseData)
    ensures
        r == (ResponseData::Downloading {
            is_downloading: state.is_downloading,
            progress: state.download_progress,
        }),
{
    ResponseData::Downloading {
        is_downloading: state.is_downloading,
        progress: state.download_progress,
    }
}

/// Answer `get_app_status`; `pid_alive` is the operating system's answer
/// for `app_probe_pid`.
pub fn handle_get_app_status(state: &IpcState, now: u64, pid_alive: bool) -> (r: ResponseData)
    ensures
        r == (ResponseData::AppStatus {
            is_running: app_probe_spec(*state, now).is_some() && pid_alive,
            pid: state.tauri_app_pid,
            last_heartbeat: state.tauri_app_heartbeat,
        }),
{
    ResponseData::AppStatus {
        is_running: is_tauri_app_running(state, now, pid_alive),
        pid: state.tauri_app_pid,
        last_heartbeat: state.tauri_app_heartbeat,
    }
}

/// The status tuple pushed to the peer.
#[derive(Clone, Copy, Debug, PartialEq, Eq, Structural)]
pub struct StatusSnapshot {
    pub app_running: bool,
    pub model_running: bool,
    pub is_downloading: bool,
    /// Hundredths of a percent.
    pub download_progress: Option<u32>,
}

/// Take the status after a request. `app_pid_alive` and `server_pid_alive`
/// are the operating system's answers for the two probes; the document is
/// healed as `get_status` does.
pub fn status_snapshot(
    state: &mut IpcState,
    now: u64,
    app_pid_alive: bool,
    server_pid_alive: bool,
) -> (r: StatusSnapshot)
    ensures
        r == (StatusSnapshot {
            app_running: app_probe_spec(*old(state), now).is_some() && app_pid_alive,
            model_running: server_probe_spec(*old(state)).is_some() && server_pid_alive,
            is_downloading: old(state).is_downloading,
            download_progress: old(state).download_progress,
        }),
        *final(state) == after_status(*old(state), server_pid_alive),
{
    let app_running = is_tauri_app_running(state, now, app_pid_alive);
    let (model_running, _) = get_status(state, server_pid_alive);
    StatusSnapshot {
        app_running,
        model_running,
        is_downloading: state.is_downloading,
        download_progress: state.download_progress,
    }
}

/// The last status pushed to the peer, if any.
#[derive(Clone, Copy, Debug, PartialEq, Eq, Structural)]
pub struct PushCache {
    pub last: Option<StatusSnapshot>,
}

/// Whether a push is due: nothing was pushed yet, or the status differs
/// from the last one pushed.
pub open spec fn push_due(last: Option<StatusSnapshot>, now: StatusSnapshot) -> bool {
    last != Some(now)
}

impl PushCache {
    pub fn new() -> (r: PushCache)
        ensures
            r.last is None,
    {
        PushCache { last: None }
    }

    /// Note the status after a request; true when it must be pushed.
    pub fn observe(&mut self, now: StatusSnapshot) -> (r: bool)
        ensures
            r == push_due(old(self).last, now),
            final(self).last == Some(now),
    {
        let due = match self.last {
            Some(prev) => prev != now,
            None => true,
        };
        if due {
            self.last = Some(now);
        }
        due
    }
}

/// Push suppression: two requests in a row, seen while the status stays
/// the same, give at most one push between them, and the second gives
/// none.
pub proof fn lemma_push_once(last: Option<StatusSnapshot>, s: StatusSnapshot)
    ensures
        !push_due(Some(s), s),
        (if push_due(last, s) { 1int } else { 0int }) + (if push_due(Some(s), s) { 1int } else { 0int }) <= 1,
{
}

} // verus!
