use sigma_eclipse::settings::{
    calculate_ctx_size_by_ram, create_default_settings, default_active_model, detect_10xx_series,
    detect_nvidia_gpu, get_active_model, get_platform_settings, get_recommended_settings,
    get_server_settings, names_10xx_series, platform_of, server_config, set_active_model,
    set_ctx_size, set_gpu_layers, set_port, AppSettings, GpuInfo, Platform, RecommendedSettings,
};
use sigma_eclipse::launch::{launch_plan, LaunchAttempt};
use sigma_eclipse::server::ServerConfig;
use sigma_eclipse::settings::{gpu_from_listing, line_vram, parse_vram_from_wmic, smi_vram_gb};
use sigma_eclipse::system::{get_system_memory_gb, memory_gb_of};
use sigma_eclipse::types::{
    allowed_origin, check_native_messaging_status, get_llama_binary_path, llama_binary_name,
    manifest_file_name, shared_server_status, LlamaCppConfig, LlamaCppPlatform, ModelConfig,
    VersionsConfig,
};

#[test]
fn settings_defaults_and_setters() {
    let mut s = AppSettings::default();
    assert_eq!(s.active_model, "model");
    assert_eq!(default_active_model(), "model");
    assert_eq!(get_server_settings(&s), (10345, 8192, 0));
    set_port(&mut s, 9000);
    set_ctx_size(&mut s, 16000);
    set_gpu_layers(&mut s, 12);
    set_active_model(&mut s, String::from("model_s"));
    assert_eq!(get_active_model(&s), "model_s");
    assert_eq!(get_server_settings(&s), (9000, 16000, 12));
    assert_eq!(server_config(&s), ServerConfig { port: 9000, ctx_size: 16000, gpu_layers: 12 });
}

#[test]
fn default_settings_follow_recommendation() {
    let rec = RecommendedSettings {
        memory_gb: 32,
        recommended_model: String::from("model"),
        recommended_ctx_size: 28000,
        recommended_gpu_layers: 41,
    };
    let s = create_default_settings(Some(rec));
    assert_eq!(s.active_model, "model");
    assert_eq!((s.port, s.ctx_size, s.gpu_layers), (10345, 28000, 41));
    let d = create_default_settings(None);
    assert_eq!((d.active_model.as_str(), d.port, d.ctx_size, d.gpu_layers), ("model", 10345, 8192, 0));
}

#[test]
fn context_size_by_memory() {
    assert_eq!(calculate_ctx_size_by_ram(8), 6000);
    assert_eq!(calculate_ctx_size_by_ram(15), 6000);
    assert_eq!(calculate_ctx_size_by_ram(16), 12000);
    assert_eq!(calculate_ctx_size_by_ram(23), 12000);
    assert_eq!(calculate_ctx_size_by_ram(24), 28000);
}

#[test]
fn platform_recommendations() {
    let none = GpuInfo::default();
    assert_eq!(get_platform_settings(Platform::MacOs, 8, &none), (String::from("model_s"), 6000));
    assert_eq!(get_platform_settings(Platform::MacOs, 16, &none), (String::from("model"), 12000));
    assert_eq!(get_platform_settings(Platform::Other, 15, &none), (String::from("model"), 6000));
    assert_eq!(get_platform_settings(Platform::Other, 14, &none), (String::from("model_s"), 6000));
    assert_eq!(get_platform_settings(Platform::Windows, 32, &none), (String::from("model_s"), 28000));
    let gtx = GpuInfo { has_nvidia: true, vram_gb: 8, is_10xx_series: true };
    assert_eq!(get_platform_settings(Platform::Windows, 8, &gtx), (String::from("model"), 12000));
    let small = GpuInfo { has_nvidia: true, vram_gb: 6, is_10xx_series: false };
    assert_eq!(get_platform_settings(Platform::Windows, 16, &small), (String::from("model_s"), 12000));
    let big = GpuInfo { has_nvidia: true, vram_gb: 12, is_10xx_series: false };
    assert_eq!(get_platform_settings(Platform::Windows, 64, &big), (String::from("model"), 28000));
    let r = get_recommended_settings(Platform::MacOs, 24, &none);
    assert_eq!((r.memory_gb, r.recommended_ctx_size, r.recommended_gpu_layers), (24, 28000, 41));
    assert_eq!(platform_of("macos"), Platform::MacOs);
    assert_eq!(platform_of("windows"), Platform::Windows);
    assert_eq!(platform_of("linux"), Platform::Other);
}

#[test]
fn gpu_series_detection_ignores_case() {
    assert!(detect_10xx_series("8589934592  NVIDIA GeForce GTX 1070"));
    assert!(detect_10xx_series("NVIDIA GTX1060"));
    assert!(!detect_10xx_series("NVIDIA GeForce RTX 3080"));
    assert!(names_10xx_series("geforce gtx 1080"));
    assert!(!names_10xx_series("GEFORCE GTX 1080"));
}

#[test]
fn gpu_reports_are_merged() {
    let listed = GpuInfo { has_nvidia: true, vram_gb: 4, is_10xx_series: true };
    assert_eq!(detect_nvidia_gpu(Some(listed), Some(8)), GpuInfo { vram_gb: 8, ..listed });
    assert_eq!(detect_nvidia_gpu(Some(listed), Some(2)), listed);
    assert_eq!(detect_nvidia_gpu(Some(listed), None), listed);
    assert_eq!(
        detect_nvidia_gpu(None, Some(0)),
        GpuInfo { has_nvidia: true, vram_gb: 0, is_10xx_series: false }
    );
    assert_eq!(detect_nvidia_gpu(None, None), GpuInfo::default());
}

#[test]
fn memory_in_whole_gib() {
    assert_eq!(memory_gb_of(17179869184), 16);
    assert_eq!(memory_gb_of(17179869183), 15);
    assert!(get_system_memory_gb().is_ok());
}

#[test]
fn release_manifest_lookup() {
    let config = VersionsConfig {
        app_version: String::from("1.0.0"),
        llama_cpp: LlamaCppConfig {
            version: String::from("b6000"),
            platforms: vec![
                (String::from("linux-x64"), LlamaCppPlatform { url: String::from("u1"), sha256: String::new() }),
                (String::from("macos-arm64"), LlamaCppPlatform { url: String::from("u2"), sha256: String::from("ab") }),
            ],
        },
        models: vec![(
            String::from("model"),
            ModelConfig {
                version: String::from("3"),
                filename: String::from("model.gguf"),
                url: String::from("m1"),
                sha256: String::new(),
            },
        )],
    };
    assert_eq!(config.platform("macos-arm64").map(|p| p.url.as_str()), Some("u2"));
    assert!(config.platform("windows-x64").is_none());
    assert_eq!(config.model("model").map(|m| m.url.as_str()), Some("m1"));
    assert!(config.model("model_s").is_none());
}

#[test]
fn status_and_paths() {
    let s = shared_server_status(true, Some(321));
    assert!(s.is_running);
    assert_eq!(s.message, "LLM is running (PID: 321)");
    assert_eq!(shared_server_status(true, None).message, "LLM is running (PID: 0)");
    assert_eq!(shared_server_status(false, Some(1)).message, "LLM is not running");
    assert_eq!(llama_binary_name(Platform::Windows), "llama-server.exe");
    assert_eq!(get_llama_binary_path("/data/bin", Platform::Other), "/data/bin/llama-server");
    assert_eq!(get_llama_binary_path("/data/bin/", Platform::MacOs), "/data/bin/llama-server");
    assert_eq!(get_llama_binary_path("C:\\app\\bin", Platform::Windows), "C:\\app\\bin\\llama-server.exe");
    assert_eq!(manifest_file_name(), "com.sigma_eclipse.host.json");
    assert_eq!(allowed_origin("abc"), "chrome-extension://abc/");
}

#[test]
fn native_messaging_status_rules() {
    let st = check_native_messaging_status(Some(String::from("/x/host")), true, true, None);
    assert!(st.host_exists && st.sigma_manifest_installed);
    let st = check_native_messaging_status(Some(String::from("x")), true, true, Some(false));
    assert!(!st.sigma_manifest_installed);
    let st = check_native_messaging_status(None, true, false, Some(true));
    assert!(!st.host_exists && !st.sigma_manifest_installed);
}

#[test]
fn wmic_listing_vram() {
    let listing = "AdapterRAM  Name\r\n1073741824  Intel UHD\r\n8589934592  NVIDIA GeForce GTX 1070\r\n";
    assert_eq!(parse_vram_from_wmic(listing), Some(8));
    assert_eq!(parse_vram_from_wmic("1070 NVIDIA\n"), None);
    assert_eq!(parse_vram_from_wmic("  4294967296\tnvidia quadro"), Some(4));
    assert_eq!(parse_vram_from_wmic(""), None);
    assert_eq!(line_vram("8589934592 Intel"), None);
    assert_eq!(
        gpu_from_listing(listing),
        Some(GpuInfo { has_nvidia: true, vram_gb: 8, is_10xx_series: true })
    );
    assert_eq!(gpu_from_listing("Name\nAMD Radeon\n"), None);
    assert_eq!(
        gpu_from_listing("Name\nNvidia Tesla\n"),
        Some(GpuInfo { has_nvidia: true, vram_gb: 0, is_10xx_series: false })
    );
    assert_eq!(smi_vram_gb("8192"), Some(8));
    assert_eq!(smi_vram_gb("N/A"), None);
}

fn attempt_tuple(a: &LaunchAttempt) -> (String, Vec<String>, bool) {
    (a.program.clone(), a.args.clone(), a.must_exist)
}

#[test]
fn launch_attempts_per_platform() {
    let mac: Vec<_> = launch_plan("macos", None, None).unwrap().iter().map(attempt_tuple).collect();
    assert_eq!(
        mac,
        vec![
            (String::from("open"), vec![String::from("-b"), String::from("com.sigma-eclipse.llm")], false),
            (String::from("open"), vec![String::from("-a"), String::from("Sigma Eclipse LLM")], false),
        ]
    );
    let win: Vec<_> = launch_plan("windows", Some("C:\\Users\\u\\AppData\\Local"), Some("C:\\Users\\u"))
        .unwrap()
        .iter()
        .map(|a| a.program.clone())
        .collect();
    assert_eq!(
        win,
        vec![
            "C:\\Users\\u\\AppData\\Local\\Sigma Eclipse LLM\\sigma-eclipse.exe",
            "C:\\Users\\u\\AppData\\Local\\Programs\\Sigma Eclipse LLM\\sigma-eclipse.exe",
            "C:\\Users\\u\\AppData\\Local\\Sigma Eclipse LLM\\sigma-eclipse.exe",
            "C:\\Users\\u\\AppData\\Local\\Programs\\Sigma Eclipse LLM\\sigma-eclipse.exe",
        ]
    );
    assert!(launch_plan("windows", None, None).unwrap().is_empty());
    let linux = launch_plan("linux", None, None).unwrap();
    assert_eq!(linux.len(), 3);
    assert_eq!(linux[2].program, "/usr/local/bin/sigma-eclipse-llm");
    assert!(linux.iter().all(|a| a.args.is_empty() && !a.must_exist));
    assert!(launch_plan("freebsd", None, None).is_none());
}
