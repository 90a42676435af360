use sigma_eclipse::server::{
    check_server_running, get_status, record_started, record_stopped, server_args,
    start_precheck, validate_config, ConfigError, ServerConfig, StartError,
};
use sigma_eclipse::text::decimal_string;
use sigma_eclipse::state::{
    app_probe_pid, clear_tauri_app_status, is_tauri_app_running, server_probe_pid,
    update_download_status, update_server_status, update_tauri_app_heartbeat, IpcState,
};

fn cfg(port: u16, ctx_size: u32, gpu_layers: u32) -> ServerConfig {
    ServerConfig { port, ctx_size, gpu_layers }
}

#[test]
fn default_state_is_empty() {
    let s = IpcState::default();
    assert_eq!(s.server_pid, None);
    assert!(!s.server_running);
    assert!(!s.is_downloading);
    assert_eq!(s.download_progress, None);
    assert_eq!(s.tauri_app_pid, None);
    assert_eq!(s.tauri_app_heartbeat, None);
}

#[test]
fn update_helpers_touch_only_their_fields() {
    let mut s = IpcState::default();
    update_server_status(&mut s, true, Some(42));
    update_download_status(&mut s, true, Some(2550));
    assert_eq!(s.server_pid, Some(42));
    assert!(s.server_running);
    assert!(s.is_downloading);
    assert_eq!(s.download_progress, Some(2550));
    assert_eq!(s.server_port, None);
}

#[test]
fn heartbeat_freshness_window() {
    let mut s = IpcState::default();
    update_tauri_app_heartbeat(&mut s, 7, 1000);
    assert_eq!(app_probe_pid(&s, 1010), Some(7));
    assert_eq!(app_probe_pid(&s, 1011), None);
    assert_eq!(app_probe_pid(&s, 900), Some(7));
    assert!(is_tauri_app_running(&s, 1005, true));
    assert!(!is_tauri_app_running(&s, 1005, false));
    assert!(!is_tauri_app_running(&s, 2000, true));
    clear_tauri_app_status(&mut s);
    assert_eq!(s.tauri_app_pid, None);
    assert_eq!(s.tauri_app_heartbeat, None);
    assert!(!is_tauri_app_running(&s, 1000, true));
}

#[test]
fn app_needs_both_pid_and_heartbeat() {
    let mut s = IpcState::default();
    s.tauri_app_pid = Some(3);
    assert_eq!(app_probe_pid(&s, 0), None);
    assert!(!is_tauri_app_running(&s, 0, true));
}

#[test]
fn validate_config_bounds() {
    assert_eq!(validate_config(&cfg(1, 6000, 0)), Ok(()));
    assert_eq!(validate_config(&cfg(1, 100000, 41)), Ok(()));
    assert_eq!(validate_config(&cfg(1, 5999, 0)), Err(ConfigError::CtxSizeOutOfRange));
    assert_eq!(validate_config(&cfg(1, 100001, 0)), Err(ConfigError::CtxSizeOutOfRange));
    assert_eq!(validate_config(&cfg(1, 8192, 42)), Err(ConfigError::GpuLayersOutOfRange));
    assert_eq!(validate_config(&cfg(1, 1, 99)), Err(ConfigError::CtxSizeOutOfRange));
    assert_eq!(
        ConfigError::CtxSizeOutOfRange.message(),
        "Context size must be between 6000 and 100000"
    );
    assert_eq!(ConfigError::GpuLayersOutOfRange.message(), "GPU layers must be between 0 and 41");
}

#[test]
fn default_server_config() {
    assert_eq!(ServerConfig::default(), cfg(10345, 8192, 0));
}

#[test]
fn start_then_status_reports_config() {
    let mut s = IpcState::default();
    let c = cfg(8080, 12000, 20);
    record_started(&mut s, 555, &c);
    assert_eq!(server_probe_pid(&s), Some(555));
    let (running, pid) = get_status(&mut s, true);
    assert!(running);
    assert_eq!(pid, Some(555));
    assert_eq!(s.server_port, Some(8080));
    assert_eq!(s.server_ctx_size, Some(12000));
    assert_eq!(s.server_gpu_layers, Some(20));
}

#[test]
fn stop_twice_is_idempotent() {
    let mut s = IpcState::default();
    record_started(&mut s, 9, &cfg(1, 6000, 0));
    record_stopped(&mut s);
    let once = s;
    record_stopped(&mut s);
    assert_eq!(s, once);
    assert!(!s.server_running);
    assert_eq!(s.server_pid, None);
    assert_eq!(s.server_port, None);
    assert_eq!(s.server_ctx_size, None);
    assert_eq!(s.server_gpu_layers, None);
    let mut fresh = IpcState::default();
    record_stopped(&mut fresh);
    assert_eq!(fresh, IpcState::default());
}

#[test]
fn status_heals_a_dead_server() {
    let mut s = IpcState::default();
    update_server_status(&mut s, true, Some(999));
    let (running, pid) = get_status(&mut s, false);
    assert!(!running);
    assert_eq!(pid, Some(999));
    assert!(!s.server_running);
    assert_eq!(s.server_pid, None);
    let (running, pid) = get_status(&mut s, true);
    assert!(!running);
    assert_eq!(pid, None);
}

#[test]
fn check_server_running_cases() {
    let mut s = IpcState::default();
    update_server_status(&mut s, true, Some(12));
    assert_eq!(check_server_running(&mut s, true), Some(12));
    assert!(s.server_running);
    assert_eq!(check_server_running(&mut s, false), None);
    assert!(!s.server_running);
    assert_eq!(s.server_pid, None);
    let mut no_pid = IpcState::default();
    no_pid.server_running = true;
    assert_eq!(check_server_running(&mut no_pid, false), None);
    assert!(!no_pid.server_running);
    let mut no_pid = IpcState::default();
    no_pid.server_running = true;
    assert_eq!(check_server_running(&mut no_pid, true), None);
    assert!(!no_pid.server_running);
}

#[test]
fn start_precheck_order() {
    let m = String::from("model");
    let good = cfg(1, 8000, 1);
    assert_eq!(start_precheck(&good, None, true, true, &m), Ok(()));
    assert_eq!(
        start_precheck(&cfg(1, 10, 1), Some(4), false, false, &m),
        Err(StartError::InvalidConfig(ConfigError::CtxSizeOutOfRange))
    );
    assert_eq!(
        start_precheck(&cfg(1, 8000, 42), None, true, true, &m),
        Err(StartError::InvalidConfig(ConfigError::GpuLayersOutOfRange))
    );
    assert_eq!(start_precheck(&good, Some(4), false, false, &m), Err(StartError::AlreadyRunning(4)));
    assert_eq!(start_precheck(&good, None, false, false, &m), Err(StartError::BinaryMissing));
    assert_eq!(
        start_precheck(&good, None, true, false, &m),
        Err(StartError::ModelMissing(String::from("model")))
    );
}

#[test]
fn server_command_line() {
    let args = server_args(&cfg(10345, 8192, 0), &String::from("/m/model.gguf"));
    let expected = vec![
        "-m", "/m/model.gguf", "--port", "10345", "--ctx-size", "8192", "--n-gpu-layers", "0",
        "--flash-attn", "auto", "--batch-size", "2048", "--ubatch-size", "512",
    ];
    assert_eq!(args, expected.iter().map(|s| s.to_string()).collect::<Vec<_>>());
}

#[test]
fn decimal_notation() {
    assert_eq!(decimal_string(0), "0");
    assert_eq!(decimal_string(10345), "10345");
    assert_eq!(decimal_string(u64::MAX), "18446744073709551615");
}
