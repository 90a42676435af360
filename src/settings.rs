//! The persisted settings (active model and last server configuration),
//! and the defaults recommended from the host's memory and GPU.
use crate::server::ServerConfig;
use crate::system::GIB;
use crate::text::{
    contains, contains_spec, first_word, first_word_of, lower_of, lowercase, parse_u64,
    parse_u64_spec, same_text,
};
use vstd::prelude::*;

verus! {

pub const DEFAULT_PORT: u16 = 10345;

pub const DEFAULT_CTX_SIZE: u32 = 8192;

pub const DEFAULT_GPU_LAYERS: u32 = 0;

/// GPU layers recommended on every platform.
pub const RECOMMENDED_GPU_LAYERS: u32 = 41;

/// The settings document.
#[derive(Clone, Debug)]
pub struct AppSettings {
    pub active_model: String,
    pub port: u16,
    pub ctx_size: u32,
    pub gpu_layers: u32,
}

pub fn default_active_model() -> (r: String)
    ensures
        r@ == "model"@,
{
    String::from_str("model")
}

pub fn default_port() -> (r: u16)
    ensures
        r == DEFAULT_PORT,
{
    DEFAULT_PORT
}

pub fn default_ctx_size() -> (r: u32)
    ensures
        r == DEFAULT_CTX_SIZE,
{
    DEFAULT_CTX_SIZE
}

pub fn default_gpu_layers() -> (r: u32)
    ensures
        r == DEFAULT_GPU_LAYERS,
{
    DEFAULT_GPU_LAYERS
}

impl Default for AppSettings {
    fn default() -> (r: AppSettings)
        ensures
            r.active_model@ == "model"@,
            r.port == DEFAULT_PORT,
            r.ctx_size == DEFAULT_CTX_SIZE,
            r.gpu_layers == DEFAULT_GPU_LAYERS,
    {
        AppSettings {
            active_model: default_active_model(),
            port: default_port(),
            ctx_size: default_ctx_size(),
            gpu_layers: default_gpu_layers(),
        }
    }
}

/// The name of the active model.
pub fn get_active_model(settings: &AppSettings) -> (r: String)
    ensures
        r@ == settings.active_model@,
{
    settings.active_model.clone()
}

/// Make `model_name` the active model.
pub fn set_active_model(settings: &mut AppSettings, model_name: String)
    ensures
        final(settings).active_model == model_name,
        final(settings).port == old(settings).port,
        final(settings).ctx_size == old(settings).ctx_size,
        final(settings).gpu_layers == old(settings).gpu_layers,
{
    settings.active_model = model_name;
}

/// Port, context size and GPU layers, in that order.
pub fn get_server_settings(settings: &AppSettings) -> (r: (u16, u32, u32))
    ensures
        r == (settings.port, settings.ctx_size, settings.gpu_layers),
{
    (settings.port, settings.ctx_size, settings.gpu_layers)
}

/// The configuration a start from these settings uses.
pub fn server_config(settings: &AppSettings) -> (r: ServerConfig)
    ensures
        r == (ServerConfig {
            port: settings.port,
            ctx_size: settings.ctx_size,
            gpu_layers: settings.gpu_layers,
        }),
{
    ServerConfig { port: settings.port, ctx_size: settings.ctx_size, gpu_layers: settings.gpu_layers }
}

pub fn set_port(settings: &mut AppSettings, port: u16)
    ensures
        final(settings).port == port,
        final(settings).active_model == old(settings).active_model,
        final(settings).ctx_size == old(settings).ctx_size,
        final(settings).gpu_layers == old(settings).gpu_layers,
{
    settings.port = port;
}

pub fn set_ctx_size(settings: &mut AppSettings, ctx_size: u32)
    ensures
        final(settings).ctx_size == ctx_size,
        final(settings).active_model == old(settings).active_model,
        final(settings).port == old(settings).port,
        final(settings).gpu_layers == old(settings).gpu_layers,
{
    settings.ctx_size = ctx_size;
}

pub fn set_gpu_layers(settings: &mut AppSettings, gpu_layers: u32)
    ensures
        final(settings).gpu_layers == gpu_layers,
        final(settings).active_model == old(settings).active_model,
        final(settings).port == old(settings).port,
        final(settings).ctx_size == old(settings).ctx_size,
{
    settings.gpu_layers = gpu_layers;
}

/// Settings recommended for this host.
#[derive(Clone, Debug)]
pub struct RecommendedSettings {
    pub memory_gb: u64,
    pub recommended_model: String,
    pub recommended_ctx_size: u32,
    pub recommended_gpu_layers: u32,
}

/// The settings written on first use: the recommended model, context size
/// and GPU layers on the default port, or the plain defaults when no
/// recommendation could be made.
pub fn create_default_settings(recommended: Option<RecommendedSettings>) -> (r: AppSettings)
    ensures
        match recommended {
            Some(rec) => r.active_model == rec.recommended_model && r.port == DEFAULT_PORT
                && r.ctx_size == rec.recommended_ctx_size && r.gpu_layers
                == rec.recommended_gpu_layers,
            None => r.active_model@ == "model"@ && r.port == DEFAULT_PORT && r.ctx_size
                == DEFAULT_CTX_SIZE && r.gpu_layers == DEFAULT_GPU_LAYERS,
        },
{
    match recommended {
        Some(rec) => AppSettings {
            active_model: rec.recommended_model,
            port: DEFAULT_PORT,
            ctx_size: rec.recommended_ctx_size,
            gpu_layers: rec.recommended_gpu_layers,
        },
        None => AppSettings::default(),
    }
}

/// The operating system families whose recommendations differ.
#[derive(Clone, Copy, Debug, PartialEq, Eq, Structural)]
pub enum Platform {
    MacOs,
    Windows,
    Other,
}

/// The family of an operating system named as Rust names it.
pub fn platform_of(os: &str) -> (r: Platform)
    ensures
        r == if os@ == "macos"@ {
            Platform::MacOs
        } else if os@ == "windows"@ {
            Platform::Windows
        } else {
            Platform::Other
        },
{
    if same_text(os, "macos") {
        Platform::MacOs
    } else if same_text(os, "windows") {
        Platform::Windows
    } else {
        Platform::Other
    }
}

/// What is known of the host's Nvidia GPU.
#[derive(Clone, Copy, Debug, PartialEq, Eq, Structural)]
pub struct GpuInfo {
    pub has_nvidia: bool,
    pub vram_gb: u64,
    pub is_10xx_series: bool,
}

impl Default for GpuInfo {
    fn default() -> (r: GpuInfo)
        ensures
            r == (GpuInfo { has_nvidia: false, vram_gb: 0, is_10xx_series: false }),
    {
        GpuInfo { has_nvidia: false, vram_gb: 0, is_10xx_series: false }
    }
}

/// Combine the video-controller listing (if it showed an Nvidia GPU) with
/// the VRAM that `nvidia-smi` reported (if it ran): a report from
/// `nvidia-smi` proves an Nvidia GPU, and its VRAM wins when positive and
/// larger than the listing's, or when the listing had none.
pub fn detect_nvidia_gpu(listed: Option<GpuInfo>, smi_vram_gb: Option<u64>) -> (r: GpuInfo)
    ensures
        ({
            let base = match listed {
                Some(g) => g,
                None => GpuInfo { has_nvidia: false, vram_gb: 0, is_10xx_series: false },
            };
            match smi_vram_gb {
                Some(v) => r == (GpuInfo {
                    has_nvidia: true,
                    vram_gb: if v > 0 && (base.vram_gb == 0 || v > base.vram_gb) {
                        v
                    } else {
                        base.vram_gb
                    },
                    is_10xx_series: base.is_10xx_series,
                }),
                None => r == base,
            }
        }),
{
    let mut gpu = match listed {
        Some(g) => g,
        None => GpuInfo::default(),
    };
    if let Some(vram) = smi_vram_gb {
        gpu.has_nvidia = true;
        if vram > 0 && (gpu.vram_gb == 0 || vram > gpu.vram_gb) {
            gpu.vram_gb = vram;
        }
    }
    gpu
}

/// Whether lower-cased video-controller text names a GeForce GTX 10xx
/// card.
pub open spec fn names_10xx_spec(lower: Seq<char>) -> bool {
    contains_spec(lower, "gtx 10"@) || contains_spec(lower, "geforce gtx 10"@) || contains_spec(
        lower,
        "gtx105"@,
    ) || contains_spec(lower, "gtx106"@) || contains_spec(lower, "gtx107"@) || contains_spec(
        lower,
        "gtx108"@,
    )
}

/// Whether already lower-cased video-controller text names a GTX 10xx
/// card.
pub fn names_10xx_series(lower: &str) -> (r: bool)
    ensures
        r == names_10xx_spec(lower@),
{
    contains(lower, "gtx 10") || contains(lower, "geforce gtx 10") || contains(lower, "gtx105")
        || contains(lower, "gtx106") || contains(lower, "gtx107") || contains(lower, "gtx108")
}

/// Whether video-controller text names a GTX 10xx card, in any case.
pub fn detect_10xx_series(output: &str) -> (r: bool)
    ensures
        r == names_10xx_spec(lower_of(output@)),
{
    let lower = lowercase(output);
    names_10xx_series(lower.as_str())
}

/// The context size that the host's memory (in GiB) affords.
pub open spec fn ctx_by_ram_spec(memory_gb: u64) -> u32 {
    if memory_gb < 16 {
        6000
    } else if memory_gb < 24 {
        12000
    } else {
        28000
    }
}

pub fn calculate_ctx_size_by_ram(memory_gb: u64) -> (r: u32)
    ensures
        r == ctx_by_ram_spec(memory_gb),
{
    if memory_gb < 16 {
        6000
    } else if memory_gb < 24 {
        12000
    } else {
        28000
    }
}

/// The recommended model and context size: the small model where memory
/// (or, on Windows, the Nvidia GPU) is short; a GTX 10xx card always gets
/// a 12000 context.
pub open spec fn platform_settings_spec(platform: Platform, memory_gb: u64, gpu: GpuInfo) -> (
    Seq<char>,
    u32,
) {
    match platform {
        Platform::MacOs => (
            if memory_gb < 16 { "model_s"@ } else { "model"@ },
            ctx_by_ram_spec(memory_gb),
        ),
        Platform::Windows => if !gpu.has_nvidia {
            ("model_s"@, ctx_by_ram_spec(memory_gb))
        } else if gpu.is_10xx_series {
            (if gpu.vram_gb < 7 { "model_s"@ } else { "model"@ }, 12000)
        } else if gpu.vram_gb < 7 {
            ("model_s"@, ctx_by_ram_spec(memory_gb))
        } else {
            ("model"@, ctx_by_ram_spec(memory_gb))
        },
        Platform::Other => (
            if memory_gb < 15 { "model_s"@ } else { "model"@ },
            ctx_by_ram_spec(memory_gb),
        ),
    }
}

fn model_name(small: bool) -> (r: String)
    ensures
        r@ == if small { "model_s"@ } else { "model"@ },
{
    if small {
        String::from_str("model_s")
    } else {
        String::from_str("model")
    }
}

/// The recommended model and context size for this host. `gpu` matters
/// on Windows only.
pub fn get_platform_settings(platform: Platform, memory_gb: u64, gpu: &GpuInfo) -> (r: (
    String,
    u32,
))
    ensures
        (r.0@, r.1) == platform_settings_spec(platform, memory_gb, *gpu),
{
    match platform {
        Platform::MacOs => (model_name(memory_gb < 16), calculate_ctx_size_by_ram(memory_gb)),
        Platform::Windows => {
            if !gpu.has_nvidia {
                (model_name(true), calculate_ctx_size_by_ram(memory_gb))
            } else if gpu.is_10xx_series {
                (model_name(gpu.vram_gb < 7), 12000)
            } else if gpu.vram_gb < 7 {
                (model_name(true), calculate_ctx_size_by_ram(memory_gb))
            } else {
                (model_name(false), calculate_ctx_size_by_ram(memory_gb))
            }
        },
        Platform::Other => (model_name(memory_gb < 15), calculate_ctx_size_by_ram(memory_gb)),
    }
}

/// The full recommendation for a host with `memory_gb` GiB of memory.
pub fn get_recommended_settings(platform: Platform, memory_gb: u64, gpu: &GpuInfo) -> (r:
    RecommendedSettings)
    ensures
        r.memory_gb == memory_gb,
        (r.recommended_model@, r.recommended_ctx_size) == platform_settings_spec(
            platform,
            memory_gb,
            *gpu,
        ),
        r.recommended_gpu_layers == RECOMMENDED_GPU_LAYERS,
{
    let (recommended_model, recommended_ctx_size) = get_platform_settings(platform, memory_gb, gpu);
    RecommendedSettings {
        memory_gb,
        recommended_model,
        recommended_ctx_size,
        recommended_gpu_layers: RECOMMENDED_GPU_LAYERS,
    }
}

/// Adapter memory reported below this many bytes is a model number, not
/// a memory size.
pub const MIN_VRAM_BYTES: u64 = 500000000;

/// The VRAM (whole GiB) that one line of the video-controller listing
/// reports: on a line that mentions Nvidia ("nvidia" or "NVIDIA"), the
/// first word read as a byte count above `MIN_VRAM_BYTES`.
pub open spec fn line_vram_spec(line: Seq<char>) -> Option<u64> {
    if contains_spec(line, "nvidia"@) || contains_spec(line, "NVIDIA"@) {
        match parse_u64_spec(first_word(line)) {
            Some(bytes) => if bytes > MIN_VRAM_BYTES {
                Some((bytes / GIB) as u64)
            } else {
                None
            },
            None => None,
        }
    } else {
        None
    }
}

/// The VRAM that the first qualifying line reports, scanning `s` at `i`
/// within the line that starts at `start`.
pub open spec fn listing_vram_from(s: Seq<char>, start: int, i: int) -> Option<u64>
    decreases s.len() - i,
{
    if i >= s.len() {
        line_vram_spec(s.subrange(start, s.len() as int))
    } else if s[i] == '\n' {
        match line_vram_spec(s.subrange(start, i)) {
            Some(v) => Some(v),
            None => listing_vram_from(s, i + 1, i + 1),
        }
    } else {
        listing_vram_from(s, start, i + 1)
    }
}

/// The VRAM of one listing line.
pub fn line_vram(line: &str) -> (r: Option<u64>)
    ensures
        r == line_vram_spec(line@),
{
    if contains(line, "nvidia") || contains(line, "NVIDIA") {
        match parse_u64(first_word_of(line)) {
            Some(bytes) => if bytes > MIN_VRAM_BYTES {
                Some(bytes / GIB)
            } else {
                None
            },
            None => None,
        }
    } else {
        None
    }
}

/// The VRAM (whole GiB) of the first Nvidia adapter in a video-controller
/// listing whose lines read "AdapterRAM  Name".
pub fn parse_vram_from_wmic(output: &str) -> (r: Option<u64>)
    ensures
        r == listing_vram_from(output@, 0, 0),
{
    let n = output.unicode_len();
    let mut start: usize = 0;
    let mut i: usize = 0;
    while i < n
        invariant
            n == output@.len(),
            0 <= start <= i <= n,
            listing_vram_from(output@, start as int, i as int) == listing_vram_from(output@, 0, 0),
        decreases n - i,
    {
        if output.get_char(i) == '\n' {
            let v = line_vram(output.substring_char(start, i));
            if v.is_some() {
                return v;
            }
            start = i + 1;
        }
        i = i + 1;
    }
    line_vram(output.substring_char(start, n))
}

/// What the video-controller listing shows: nothing when it names no
/// Nvidia adapter (in any case); else an Nvidia GPU, whether it is a GTX
/// 10xx, and its VRAM (0 when unreadable).
pub fn gpu_from_listing(output: &str) -> (r: Option<GpuInfo>)
    ensures
        r == if contains_spec(lower_of(output@), "nvidia"@) {
            Some(
                GpuInfo {
                    has_nvidia: true,
                    vram_gb: match listing_vram_from(output@, 0, 0) {
                        Some(v) => v,
                        None => 0,
                    },
                    is_10xx_series: names_10xx_spec(lower_of(output@)),
                },
            )
        } else {
            None
        },
{
    let lower = lowercase(output);
    if !contains(lower.as_str(), "nvidia") {
        return None;
    }
    let vram_gb = match parse_vram_from_wmic(output) {
        Some(v) => v,
        None => 0,
    };
    Some(GpuInfo { has_nvidia: true, vram_gb, is_10xx_series: names_10xx_series(lower.as_str()) })
}

/// The VRAM in whole GiB from `nvidia-smi`'s memory figure in MiB (its
/// output with surrounding whitespace removed).
pub fn smi_vram_gb(trimmed: &str) -> (r: Option<u64>)
    ensures
        r == match parse_u64_spec(trimmed@) {
            Some(mib) => Some((mib / 1024) as u64),
            None => None,
        },
{
    match parse_u64(trimmed) {
        Some(mib) => Some(mib / 1024),
        None => None,
    }
}

} // verus!
