//! The shared state document that two unrelated processes read and write,
//! and the liveness rules built on it.
use vstd::prelude::*;

verus! {

/// A heartbeat older than this many seconds means the foreground
/// application is gone.
pub const HEARTBEAT_TIMEOUT_SECS: u64 = 10;

/// Download progress is held in hundredths of a percent: 0 ..= 10000.
pub const PROGRESS_FULL: u32 = 10000;

/// The document shared by every process through the state file.
#[derive(Clone, Copy, Debug, PartialEq, Eq, Structural)]
pub struct IpcState {
    pub server_pid: Option<u32>,
    pub server_running: bool,
    pub is_downloading: bool,
    /// Hundredths of a percent.
    pub download_progress: Option<u32>,
    pub server_port: Option<u16>,
    pub server_ctx_size: Option<u32>,
    pub server_gpu_layers: Option<u32>,
    pub tauri_app_pid: Option<u32>,
    /// Unix seconds of the last heartbeat.
    pub tauri_app_heartbeat: Option<u64>,
}

/// The state that readers fall back to when the document is missing or
/// unreadable: every field empty.
pub open spec fn empty_state() -> IpcState {
    IpcState {
        server_pid: None,
        server_running: false,
        is_downloading: false,
        download_progress: None,
        server_port: None,
        server_ctx_size: None,
        server_gpu_layers: None,
        tauri_app_pid: None,
        tauri_app_heartbeat: None,
    }
}

impl Default for IpcState {
    fn default() -> (r: IpcState)
        ensures
            r == empty_state(),
    {
        IpcState {
            server_pid: None,
            server_running: false,
            is_downloading: false,
            download_progress: None,
            server_port: None,
            server_ctx_size: None,
            server_gpu_layers: None,
            tauri_app_pid: None,
            tauri_app_heartbeat: None,
        }
    }
}

/// Record whether the server runs and under which pid.
pub fn update_server_status(state: &mut IpcState, running: bool, pid: Option<u32>)
    ensures
        *final(state) == (IpcState { server_running: running, server_pid: pid, ..*old(state) }),
{
    state.server_running = running;
    state.server_pid = pid;
}

/// Record whether a download is in progress and how far it got.
pub fn update_download_status(state: &mut IpcState, is_downloading: bool, progress: Option<u32>)
    ensures
        *final(state) == (IpcState {
            is_downloading: is_downloading,
            download_progress: progress,
            ..*old(state)
        }),
{
    state.is_downloading = is_downloading;
    state.download_progress = progress;
}

/// Refresh the foreground application's identity and heartbeat.
pub fn update_tauri_app_heartbeat(state: &mut IpcState, pid: u32, now: u64)
    ensures
        *final(state) == (IpcState {
            tauri_app_pid: Some(pid),
            tauri_app_heartbeat: Some(now),
            ..*old(state)
        }),
{
    state.tauri_app_pid = Some(pid);
    state.tauri_app_heartbeat = Some(now);
}

/// Forget the foreground application (it exits gracefully).
pub fn clear_tauri_app_status(state: &mut IpcState)
    ensures
        *final(state) == (IpcState {
            tauri_app_pid: None,
            tauri_app_heartbeat: None,
            ..*old(state)
        }),
{
    state.tauri_app_pid = None;
    state.tauri_app_heartbeat = None;
}

/// The pid whose existence decides whether the foreground application
/// runs: present only when both pid and heartbeat are recorded and the
/// heartbeat is at most `HEARTBEAT_TIMEOUT_SECS` old (a heartbeat from the
/// future counts as fresh).
pub open spec fn app_probe_spec(state: IpcState, now: u64) -> Option<u32> {
    match (state.tauri_app_pid, state.tauri_app_heartbeat) {
        (Some(pid), Some(hb)) => if now <= hb || now - hb <= HEARTBEAT_TIMEOUT_SECS {
            Some(pid)
        } else {
            None
        },
        _ => None,
    }
}

/// Which pid the operating system must be asked about before the
/// foreground application can be called alive; `None` means it is not.
pub fn app_probe_pid(state: &IpcState, now: u64) -> (r: Option<u32>)
    ensures
        r == app_probe_spec(*state, now),
{
    match (state.tauri_app_pid, state.tauri_app_heartbeat) {
        (Some(pid), Some(hb)) => {
            if now.saturating_sub(hb) > HEARTBEAT_TIMEOUT_SECS {
                None
            } else {
                Some(pid)
            }
        },
        _ => None,
    }
}

/// The foreground application runs when its pid and a fresh heartbeat are
/// recorded and the operating system reports that pid alive
/// (`pid_alive` is the answer for `app_probe_pid`).
pub fn is_tauri_app_running(state: &IpcState, now: u64, pid_alive: bool) -> (r: bool)
    ensures
        r == (app_probe_spec(*state, now).is_some() && pid_alive),
{
    match app_probe_pid(state, now) {
        Some(_) => pid_alive,
        None => false,
    }
}

/// The pid whose existence decides whether the server runs: recorded only
/// while the document says it runs.
pub open spec fn server_probe_spec(state: IpcState) -> Option<u32> {
    if state.server_running {
        state.server_pid
    } else {
        None
    }
}

/// Which pid the operating system must be asked about before the server
/// can be called alive; `None` means it is not.
pub fn server_probe_pid(state: &IpcState) -> (r: Option<u32>)
    ensures
        r == server_probe_spec(*state),
{
    if state.server_running {
        state.server_pid
    } else {
        None
    }
}

} // verus!
