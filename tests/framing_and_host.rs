use sigma_eclipse::framing::{
    byte_order_of_probe,    decode_frame, decode_length, encode_frame, encode_length, native_byte_order, ByteOrder,
    FrameError,
};
use sigma_eclipse::host::{
    launch_outcome, stop_request,    stop_target, stopped_data, StopTarget,
    handle_get_app_status, handle_get_server_status, handle_is_downloading, parse_command,
    respond, status_snapshot, unknown_command_error, Command, PushCache, ResponseData,
    StatusSnapshot,
};
use sigma_eclipse::state::{update_download_status, update_server_status, IpcState};

#[test]
fn frame_little_and_big() {
    assert_eq!(encode_frame(ByteOrder::Little, b"ab").unwrap(), vec![2, 0, 0, 0, b'a', b'b']);
    assert_eq!(encode_frame(ByteOrder::Big, b"ab").unwrap(), vec![0, 0, 0, 2, b'a', b'b']);
    assert_eq!(encode_length(ByteOrder::Little, 0x01020304), [4, 3, 2, 1]);
    assert_eq!(decode_length(ByteOrder::Big, [1, 2, 3, 4]), 0x01020304);
}

#[test]
fn native_order_matches_machine() {
    let order = native_byte_order();
    assert_eq!(encode_length(order, 0x0A0B0C0D), 0x0A0B0C0Du32.to_ne_bytes());
    assert_eq!(decode_length(order, 300u32.to_ne_bytes()), 300);
}

#[test]
fn frame_round_trip_with_trailing_bytes() {
    let body = br#"{"id":"1","success":true,"data":{"is_running":false}}"#.to_vec();
    for order in [ByteOrder::Little, ByteOrder::Big] {
        let mut wire = encode_frame(order, &body).unwrap();
        let frame_len = wire.len();
        wire.extend_from_slice(&[9, 9, 9]);
        let (decoded, used) = decode_frame(order, &wire).unwrap();
        assert_eq!(decoded, body);
        assert_eq!(used, frame_len);
    }
}

#[test]
fn empty_body_frame() {
    let wire = encode_frame(ByteOrder::Little, &[]).unwrap();
    assert_eq!(wire, vec![0, 0, 0, 0]);
    assert_eq!(decode_frame(ByteOrder::Little, &wire), Ok((vec![], 4)));
}

#[test]
fn truncated_frames_fail() {
    assert_eq!(decode_frame(ByteOrder::Little, &[1, 0, 0]), Err(FrameError::Truncated));
    assert_eq!(decode_frame(ByteOrder::Little, &[3, 0, 0, 0, 1, 2]), Err(FrameError::Truncated));
}

#[test]
fn commands_are_recognised() {
    assert_eq!(parse_command("start_server"), Some(Command::StartServer));
    assert_eq!(parse_command("stop_server"), Some(Command::StopServer));
    assert_eq!(parse_command("get_server_status"), Some(Command::GetServerStatus));
    assert_eq!(parse_command("isDownloading"), Some(Command::IsDownloading));
    assert_eq!(parse_command("get_app_status"), Some(Command::GetAppStatus));
    assert_eq!(parse_command("launch_app"), Some(Command::LaunchApp));
    assert_eq!(parse_command("is_downloading"), None);
    assert_eq!(parse_command(""), None);
    assert_eq!(unknown_command_error("reboot"), "Unknown command: reboot");
}

#[test]
fn responses_carry_data_or_error() {
    let ok = respond(String::from("7"), Ok(ResponseData::AppLaunch { launched: true }));
    assert_eq!(ok.id, "7");
    assert!(ok.success);
    assert_eq!(ok.data, Some(ResponseData::AppLaunch { launched: true }));
    assert_eq!(ok.error, None);
    let err = respond(String::from("8"), Err(String::from("Server is not running")));
    assert!(!err.success);
    assert_eq!(err.data, None);
    assert_eq!(err.error.as_deref(), Some("Server is not running"));
}

#[test]
fn download_and_app_queries() {
    let mut s = IpcState::default();
    update_download_status(&mut s, true, Some(4200));
    assert_eq!(
        handle_is_downloading(&s),
        ResponseData::Downloading { is_downloading: true, progress: Some(4200) }
    );
    s.tauri_app_pid = Some(10);
    s.tauri_app_heartbeat = Some(100);
    assert_eq!(
        handle_get_app_status(&s, 105, true),
        ResponseData::AppStatus { is_running: true, pid: Some(10), last_heartbeat: Some(100) }
    );
}

#[test]
fn push_sent_once_while_status_unchanged() {
    let mut cache = PushCache::new();
    let snap = StatusSnapshot {
        app_running: false,
        model_running: true,
        is_downloading: false,
        download_progress: None,
    };
    let mut pushes = 0;
    if cache.observe(snap) {
        pushes += 1;
    }
    if cache.observe(snap) {
        pushes += 1;
    }
    assert_eq!(pushes, 1);
    let changed = StatusSnapshot { model_running: false, ..snap };
    assert!(cache.observe(changed));
    assert!(!cache.observe(changed));
}

#[test]
fn fresh_host_get_server_status() {
    let mut state = IpcState::default();
    let mut cache = PushCache::new();
    let command = parse_command("get_server_status");
    assert_eq!(command, Some(Command::GetServerStatus));
    let data = handle_get_server_status(&mut state, false);
    let response = respond(String::from("1"), Ok(data));
    assert_eq!(response.id, "1");
    assert!(response.success);
    assert_eq!(
        response.data,
        Some(ResponseData::ServerStatus {
            is_running: false,
            pid: None,
            port: None,
            ctx_size: None,
            gpu_layers: None,
        })
    );
    let snap = status_snapshot(&mut state, 0, false, false);
    assert!(!snap.model_running);
    assert!(cache.observe(snap));
    let snap = status_snapshot(&mut state, 0, false, false);
    assert!(!cache.observe(snap));
}

#[test]
fn server_status_heals_through_host() {
    let mut state = IpcState::default();
    update_server_status(&mut state, true, Some(77));
    state.server_port = Some(9000);
    let data = handle_get_server_status(&mut state, false);
    assert_eq!(
        data,
        ResponseData::ServerStatus {
            is_running: false,
            pid: Some(77),
            port: Some(9000),
            ctx_size: None,
            gpu_layers: None,
        }
    );
    assert!(!state.server_running);
}

#[test]
fn stop_prefers_the_local_server() {
    assert_eq!(stop_target(Some(5), Some(9)), Ok(StopTarget::Local(5)));
    assert_eq!(stop_target(None, Some(9)), Ok(StopTarget::Shared(9)));
    assert_eq!(stop_target(None, None), Err(String::from("Server is not running")));
    assert_eq!(stopped_data(StopTarget::Local(5)), ResponseData::ServerStopped { pid: None });
    assert_eq!(stopped_data(StopTarget::Shared(9)), ResponseData::ServerStopped { pid: Some(9) });
}

#[test]
fn probe_value_gives_byte_order() {
    assert_eq!(byte_order_of_probe(1), ByteOrder::Little);
    assert_eq!(byte_order_of_probe(0x0100_0000), ByteOrder::Big);
    assert_eq!(byte_order_of_probe(u32::from_ne_bytes([1, 0, 0, 0])), native_byte_order());
}

#[test]
fn stop_with_nothing_running_clears_fields() {
    let mut s = IpcState::default();
    s.server_port = Some(9000);
    s.server_ctx_size = Some(8192);
    s.server_gpu_layers = Some(3);
    assert_eq!(stop_request(&mut s, None, false), Err(String::from("Server is not running")));
    assert_eq!(s, IpcState::default());
    let mut t = IpcState::default();
    update_server_status(&mut t, true, Some(44));
    t.server_port = Some(1);
    assert_eq!(stop_request(&mut t, None, true), Ok(StopTarget::Shared(44)));
    assert_eq!(t, IpcState::default());
    let mut u = IpcState::default();
    update_server_status(&mut u, true, Some(44));
    assert_eq!(stop_request(&mut u, Some(7), false), Ok(StopTarget::Local(7)));
    assert!(!u.server_running);
}

#[test]
fn answer_messages() {
    assert_eq!(ResponseData::ServerStarted { pid: 12, port: 10345 }.message(), "Server started on port 10345 (PID: 12)");
    assert_eq!(ResponseData::ServerStopped { pid: None }.message(), "Server stopped");
    assert_eq!(ResponseData::ServerStopped { pid: Some(5) }.message(), "Server stopped (PID: 5)");
    let st = ResponseData::ServerStatus { is_running: false, pid: None, port: None, ctx_size: None, gpu_layers: None };
    assert_eq!(st.message(), "Server is not running");
    assert_eq!(ResponseData::AppStatus { is_running: true, pid: None, last_heartbeat: None }.message(), "App is running");
    assert_eq!(ResponseData::AppLaunch { launched: false }.message(), "App is already running");
    assert_eq!(ResponseData::AppLaunch { launched: true }.message(), "App launched successfully");
}

#[test]
fn launch_outcomes() {
    assert_eq!(launch_outcome(true, true, false, "linux"), Ok(ResponseData::AppLaunch { launched: false }));
    assert_eq!(launch_outcome(false, true, true, "linux"), Ok(ResponseData::AppLaunch { launched: true }));
    assert_eq!(launch_outcome(false, false, false, "freebsd"), Err(String::from("Platform not supported")));
    assert_eq!(launch_outcome(false, true, false, "macos"), Err(String::from("Failed to launch app")));
    assert_eq!(
        launch_outcome(false, true, false, "windows"),
        Err(String::from("Could not find Sigma Eclipse LLM executable"))
    );
}
