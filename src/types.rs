//! The release manifest bundled with the application, the status and
//! model records shown to the user, and where installed files live.
use crate::settings::Platform;
use crate::text::{decimal, decimal_string, ends_with, ends_with_spec, joined, same_text};
use vstd::prelude::*;

verus! {

/// Where the server build for one platform is published.
#[derive(Clone, Debug)]
pub struct LlamaCppPlatform {
    pub url: String,
    /// Expected SHA-256 digest in hex; empty skips the check.
    pub sha256: String,
}

/// The bundled server release: its version and a build per platform.
#[derive(Clone, Debug)]
pub struct LlamaCppConfig {
    pub version: String,
    pub platforms: Vec<(String, LlamaCppPlatform)>,
}

/// One downloadable model.
#[derive(Clone, Debug)]
pub struct ModelConfig {
    pub version: String,
    pub filename: String,
    pub url: String,
    /// Expected SHA-256 digest in hex; empty skips the check.
    pub sha256: String,
}

/// The whole release manifest; `wf` says its keys are distinct.
#[derive(Clone, Debug)]
pub struct VersionsConfig {
    pub app_version: String,
    pub llama_cpp: LlamaCppConfig,
    pub models: Vec<(String, ModelConfig)>,
}

/// No two entries share a key.
pub open spec fn keys_distinct<T>(entries: Seq<(String, T)>) -> bool {
    forall|i: int, j: int|
        0 <= i < j < entries.len() ==> (#[trigger] entries[i]).0@ != (#[trigger] entries[j]).0@
}

fn find_key<T>(entries: &Vec<(String, T)>, key: &str) -> (r: Option<usize>)
    ensures
        match r {
            Some(i) => i < entries@.len() && entries@[i as int].0@ == key@ && forall|j: int|
                0 <= j < i ==> (#[trigger] entries@[j]).0@ != key@,
            None => forall|j: int| 0 <= j < entries@.len() ==> (#[trigger] entries@[j]).0@ != key@,
        },
{
    let mut i: usize = 0;
    while i < entries.len()
        invariant
            0 <= i <= entries@.len(),
            forall|j: int| 0 <= j < i ==> (#[trigger] entries@[j]).0@ != key@,
        decreases entries@.len() - i,
    {
        if same_text(entries[i].0.as_str(), key) {
            return Some(i);
        }
        i = i + 1;
    }
    None
}

impl VersionsConfig {
    /// Platform identifiers are distinct, and so are model names.
    pub open spec fn wf(&self) -> bool {
        keys_distinct(self.llama_cpp.platforms@) && keys_distinct(self.models@)
    }

    /// The server build published for `platform_id`.
    pub fn platform(&self, platform_id: &str) -> (r: Option<&LlamaCppPlatform>)
        ensures
            self.wf() && r is Some ==> forall|i: int|
                0 <= i < self.llama_cpp.platforms@.len()
                    && (#[trigger] self.llama_cpp.platforms@[i]).0@ == platform_id@
                    ==> self.llama_cpp.platforms@[i].1 == *r->0,
            match r {
                Some(p) => exists|i: int|
                    0 <= i < self.llama_cpp.platforms@.len()
                        && (#[trigger] self.llama_cpp.platforms@[i]).0@ == platform_id@
                        && self.llama_cpp.platforms@[i].1 == *p,
                None => forall|i: int|
                    0 <= i < self.llama_cpp.platforms@.len()
                        ==> (#[trigger] self.llama_cpp.platforms@[i]).0@ != platform_id@,
            },
    {
        match find_key(&self.llama_cpp.platforms, platform_id) {
            Some(i) => Some(&self.llama_cpp.platforms[i].1),
            None => None,
        }
    }

    /// The model published as `name`.
    pub fn model(&self, name: &str) -> (r: Option<&ModelConfig>)
        ensures
            self.wf() && r is Some ==> forall|i: int|
                0 <= i < self.models@.len() && (#[trigger] self.models@[i]).0@ == name@
                    ==> self.models@[i].1 == *r->0,
            match r {
                Some(m) => exists|i: int|
                    0 <= i < self.models@.len() && (#[trigger] self.models@[i]).0@ == name@
                        && self.models@[i].1 == *m,
                None => forall|i: int|
                    0 <= i < self.models@.len() ==> (#[trigger] self.models@[i]).0@ != name@,
            },
    {
        match find_key(&self.models, name) {
            Some(i) => Some(&self.models[i].1),
            None => None,
        }
    }
}

/// A model as listed to the user.
#[derive(Clone, Debug)]
pub struct ModelInfo {
    pub name: String,
    pub version: String,
    pub is_downloaded: bool,
    /// The model's directory, when it is downloaded.
    pub path: Option<String>,
}

/// Whether the server runs, with a message for the user.
#[derive(Clone, Debug)]
pub struct ServerStatus {
    pub is_running: bool,
    pub message: String,
}

/// The status shown for the shared server state: running under `pid`
/// (0 when none is recorded) or not running.
pub fn shared_server_status(is_running: bool, pid: Option<u32>) -> (r: ServerStatus)
    ensures
        r.is_running == is_running,
        is_running ==> r.message@ == "LLM is running (PID: "@ + decimal(
            match pid {
                Some(p) => p as nat,
                None => 0,
            },
        ) + ")"@,
        !is_running ==> r.message@ == "LLM is not running"@,
{
    if is_running {
        let n: u32 = match pid {
            Some(p) => p,
            None => 0,
        };
        let head = joined("LLM is running (PID: ", decimal_string(n as u64).as_str());
        ServerStatus { is_running, message: head.concat(")") }
    } else {
        ServerStatus { is_running, message: String::from_str("LLM is not running") }
    }
}

/// The server binary's file name on a platform.
pub fn llama_binary_name(platform: Platform) -> (r: &'static str)
    ensures
        r@ == if platform == Platform::Windows {
            "llama-server.exe"@
        } else {
            "llama-server"@
        },
{
    proof {
        reveal_strlit("llama-server.exe");
        reveal_strlit("llama-server");
    }
    if platform == Platform::Windows {
        "llama-server.exe"
    } else {
        "llama-server"
    }
}

/// The path separator of a platform.
pub open spec fn separator(platform: Platform) -> Seq<char> {
    if platform == Platform::Windows {
        "\\"@
    } else {
        "/"@
    }
}

/// `name` inside directory `dir`: one separator between them, none added
/// when `dir` already ends with one.
pub open spec fn joined_path(dir: Seq<char>, name: Seq<char>, platform: Platform) -> Seq<char> {
    if ends_with_spec(dir, separator(platform)) {
        dir + name
    } else {
        dir + separator(platform) + name
    }
}

/// `name` inside directory `dir` on `platform`.
pub fn join_path(dir: &str, name: &str, platform: Platform) -> (r: String)
    ensures
        r@ == joined_path(dir@, name@, platform),
{
    let sep = if platform == Platform::Windows {
        "\\"
    } else {
        "/"
    };
    if ends_with(dir, sep) {
        joined(dir, name)
    } else {
        joined(dir, sep).concat(name)
    }
}

/// The path of the server binary in the binaries directory `bin_dir`.
pub fn get_llama_binary_path(bin_dir: &str, platform: Platform) -> (r: String)
    ensures
        r@ == joined_path(
            bin_dir@,
            if platform == Platform::Windows {
                "llama-server.exe"@
            } else {
                "llama-server"@
            },
            platform,
        ),
{
    join_path(bin_dir, llama_binary_name(platform), platform)
}

/// The name under which the messaging host is registered with browsers.
pub const HOST_NAME: &'static str = "com.sigma_eclipse.host";

/// The file name of the host's manifest.
pub fn manifest_file_name() -> (r: String)
    ensures
        r@ == HOST_NAME@ + ".json"@,
{
    joined(HOST_NAME, ".json")
}

/// The origin of the extension that may talk to the host.
pub fn allowed_origin(extension_id: &str) -> (r: String)
    ensures
        r@ == "chrome-extension://"@ + extension_id@ + "/"@,
{
    joined("chrome-extension://", extension_id).concat("/")
}

/// Whether the messaging host can be reached by the browser.
#[derive(Clone, Debug)]
pub struct NativeMessagingStatus {
    pub host_binary_path: Option<String>,
    pub host_exists: bool,
    pub sigma_manifest_installed: bool,
}

/// The installation status from what was found: the host binary (if its
/// path is known, and whether it exists), the manifest file, and — on
/// platforms that register manifests there — whether a registry entry
/// exists (`None` elsewhere). Where a registry is used, the manifest counts
/// as installed only with both file and entry.
pub fn check_native_messaging_status(
    host_binary_path: Option<String>,
    host_exists: bool,
    manifest_file_exists: bool,
    registry_entry_exists: Option<bool>,
) -> (r: NativeMessagingStatus)
    ensures
        r.host_binary_path == host_binary_path,
        r.host_exists == (host_binary_path is Some && host_exists),
        r.sigma_manifest_installed == (manifest_file_exists && match registry_entry_exists {
            Some(b) => b,
            None => true,
        }),
{
    let known = host_binary_path.is_some();
    let installed = match registry_entry_exists {
        Some(b) => manifest_file_exists && b,
        None => manifest_file_exists,
    };
    NativeMessagingStatus {
        host_binary_path,
        host_exists: known && host_exists,
        sigma_manifest_installed: installed,
    }
}

} // verus!
