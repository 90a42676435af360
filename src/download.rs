//! The resumable download session: where a transfer starts, what a
//! response means, when progress is reported, how chunk failures are
//! retried, and how the result is checked and unpacked.
use crate::settings::Platform;
use crate::state::{update_download_status, IpcState};
use crate::text::{
    after_last, after_last_slash, ends_with, ends_with_spec, lower_of, lowercase, parse_u64,
    parse_u64_spec, same_text,
};
use vstd::prelude::*;

verus! {

/// Consecutive chunk failures after which a download gives up.
pub const MAX_CHUNK_RETRIES: u32 = 10;

/// First retry delay, in milliseconds; it doubles on each attempt.
pub const BASE_RETRY_DELAY_MS: u64 = 1000;

/// Longest retry delay, in milliseconds.
pub const MAX_RETRY_DELAY_MS: u64 = 30000;

/// Progress is reported each time another this many bytes arrived.
pub const EMIT_STEP_BYTES: u64 = 10485760;

/// `base` doubled `k` times.
pub open spec fn doubled(base: nat, k: nat) -> nat
    decreases k,
{
    if k == 0 {
        base
    } else {
        2 * doubled(base, (k - 1) as nat)
    }
}

/// The wait before retry number `attempt` (counted from 0), in
/// milliseconds: the base delay doubled once per attempt (at most ten
/// times), capped at the longest delay.
pub open spec fn backoff_spec(attempt: u32) -> nat {
    let k: nat = if attempt < 10 { attempt as nat } else { 10 };
    let d = doubled(BASE_RETRY_DELAY_MS as nat, k);
    if d < MAX_RETRY_DELAY_MS { d } else { MAX_RETRY_DELAY_MS as nat }
}

/// The retry delay in milliseconds for `attempt`.
pub fn calculate_backoff_delay(attempt: u32) -> (r: u64)
    ensures
        r == backoff_spec(attempt),
{
    let k: u32 = if attempt < 10 { attempt } else { 10 };
    let mut d: u64 = BASE_RETRY_DELAY_MS;
    let mut i: u32 = 0;
    while i < k
        invariant
            0 <= i <= k,
            d == (if doubled(BASE_RETRY_DELAY_MS as nat, i as nat) < MAX_RETRY_DELAY_MS {
                doubled(BASE_RETRY_DELAY_MS as nat, i as nat)
            } else {
                MAX_RETRY_DELAY_MS as nat
            }),
        decreases k - i,
    {
        d = if d * 2 < MAX_RETRY_DELAY_MS { d * 2 } else { MAX_RETRY_DELAY_MS };
        i = i + 1;
    }
    d
}

/// The platform name under which the server binary is published.
pub open spec fn platform_spec(os: Seq<char>, arch: Seq<char>) -> Option<Seq<char>> {
    if os == "macos"@ && arch == "aarch64"@ {
        Some("macos-arm64"@)
    } else if os == "macos"@ && arch == "x86_64"@ {
        Some("macos-x64"@)
    } else if os == "linux"@ && arch == "x86_64"@ {
        Some("linux-x64"@)
    } else if os == "windows"@ && arch == "x86_64"@ {
        Some("windows-x64"@)
    } else {
        None
    }
}

/// The platform identifier for an operating system and architecture (as
/// Rust names them), or an error for a platform without a build.
pub fn get_platform_id(os: &str, arch: &str) -> (r: Result<String, String>)
    ensures
        r is Ok <==> platform_spec(os@, arch@) is Some,
        r is Ok ==> r->Ok_0@ == platform_spec(os@, arch@)->0,
{
    if same_text(os, "macos") && same_text(arch, "aarch64") {
        Ok(String::from_str("macos-arm64"))
    } else if same_text(os, "macos") && same_text(arch, "x86_64") {
        Ok(String::from_str("macos-x64"))
    } else if same_text(os, "linux") && same_text(arch, "x86_64") {
        Ok(String::from_str("linux-x64"))
    } else if same_text(os, "windows") && same_text(arch, "x86_64") {
        Ok(String::from_str("windows-x64"))
    } else {
        Err(String::from_str("Unsupported platform"))
    }
}

/// Whether the installed server binary must be replaced: no version is
/// recorded (or it could not be read), or it differs from the bundled one.
pub fn needs_update(installed: &Option<String>, current: &str) -> (r: bool)
    ensures
        r == match installed {
            Some(v) => v@ != current@,
            None => true,
        },
{
    match installed {
        Some(v) => !same_text(v.as_str(), current),
        None => true,
    }
}

/// The byte offset a download starts from: the length of the partial file
/// when the origin honours ranges and a partial file exists, else 0.
pub open spec fn resume_offset_spec(supports_resume: bool, existing_len: Option<u64>) -> u64 {
    match existing_len {
        Some(n) => if supports_resume { n } else { 0 },
        None => 0,
    }
}

/// Whether the origin honours range requests, from its `Accept-Ranges`
/// header (`None` when absent; an unreadable value reads as empty): any
/// value but `none` does.
pub fn accepts_ranges(header: Option<&str>) -> (r: bool)
    ensures
        r == match header {
            Some(v) => v@ != "none"@,
            None => false,
        },
{
    match header {
        Some(v) => !same_text(v, "none"),
        None => false,
    }
}

/// Where to start: resume after the partial file, or start afresh.
pub fn resume_offset(supports_resume: bool, existing_len: Option<u64>) -> (r: u64)
    ensures
        r == resume_offset_spec(supports_resume, existing_len),
{
    match existing_len {
        Some(n) => if supports_resume { n } else { 0 },
        None => 0,
    }
}

/// The partial file of a resumed download followed by what the range
/// request returns.
pub open spec fn resumed_file(partial: Seq<u8>, source: Seq<u8>, supports_resume: bool) -> Seq<u8> {
    let offset = resume_offset_spec(supports_resume, Some(partial.len() as u64));
    if offset == 0 {
        source
    } else {
        partial + source.skip(offset as int)
    }
}

/// Resuming gives the same file as a fresh download: when the partial file
/// holds the first bytes of the source, appending what a range request
/// from its length returns yields the source byte for byte; without range
/// support the file is written afresh.
pub proof fn lemma_resume_matches_fresh(partial: Seq<u8>, source: Seq<u8>, supports_resume: bool)
    requires
        partial.len() <= source.len(),
        partial.len() <= u64::MAX,
        partial == source.take(partial.len() as int),
    ensures
        resumed_file(partial, source, supports_resume) == source,
{
    if supports_resume && partial.len() > 0 {
        assert(partial + source.skip(partial.len() as int) =~= source);
    }
}

/// Why a download stopped.
#[derive(Clone, Copy, Debug, PartialEq, Eq, Structural)]
pub enum DownloadError {
    /// The origin answered with this HTTP status.
    Http(u16),
    /// Chunk reads kept failing.
    RetriesExhausted,
    /// A chunk read failed and the origin cannot resume.
    NoResume,
}

/// A response status is usable when it is a success (200 to 299, which
/// includes 206 Partial Content).
pub fn check_status(status: u16) -> (r: Result<(), DownloadError>)
    ensures
        r is Ok <==> 200 <= status <= 299,
        r is Err ==> r->Err_0 == DownloadError::Http(status),
{
    if 200 <= status && status <= 299 {
        Ok(())
    } else {
        Err(DownloadError::Http(status))
    }
}

/// The total size a response announces: for a resumed request answered
/// with 206, the number after the last `/` of its Content-Range header;
/// otherwise its Content-Length.
pub fn response_total(
    start_byte: u64,
    status: u16,
    content_range: Option<&str>,
    content_length: Option<u64>,
) -> (r: Option<u64>)
    ensures
        r == if start_byte > 0 && status == 206 {
            match content_range {
                Some(h) => parse_u64_spec(after_last(h@, '/')),
                None => None,
            }
        } else {
            content_length
        },
{
    if start_byte > 0 && status == 206 {
        match content_range {
            Some(h) => parse_u64(after_last_slash(h)),
            None => None,
        }
    } else {
        content_length
    }
}

/// Progress in hundredths of a percent, at most 100%; a zero total counts
/// as complete.
pub open spec fn progress_spec(downloaded: u64, total: u64) -> nat {
    if total == 0 {
        10000
    } else {
        let p = (downloaded as nat) * 10000 / (total as nat);
        if p < 10000 { p } else { 10000 }
    }
}

/// How far a download of `total` bytes got, in hundredths of a percent.
pub fn progress_hundredths(downloaded: u64, total: u64) -> (r: u32)
    ensures
        r == progress_spec(downloaded, total),
        r <= 10000,
{
    if total == 0 {
        return 10000;
    }
    let d = downloaded as u128;
    assert(d * 10000 <= u64::MAX * 10000) by (nonlinear_arith)
        requires d <= u64::MAX;
    let p = d * 10000 / (total as u128);
    if p < 10000 {
        p as u32
    } else {
        10000
    }
}

/// What to do after a chunk read failed.
#[derive(Clone, Copy, Debug, PartialEq, Eq, Structural)]
pub enum ChunkFailure {
    /// Flush the file, wait `delay_ms`, then request again from byte `from`.
    Retry { delay_ms: u64, from: u64 },
    /// Stop the download with this error.
    GiveUp(DownloadError),
}

/// The state of one transfer between the first request and the end of
/// the stream.
#[derive(Clone, Copy, Debug, PartialEq, Eq, Structural)]
pub struct DownloadSession {
    /// Bytes in the destination file.
    pub downloaded: u64,
    /// The size announced by the first response.
    pub total: Option<u64>,
    pub supports_resume: bool,
    pub consecutive_errors: u32,
    /// `downloaded / EMIT_STEP_BYTES` when progress was last reported.
    pub last_emit_step: u64,
}

impl DownloadSession {
    /// The session can still take a chunk failure.
    pub open spec fn wf(&self) -> bool {
        self.consecutive_errors < MAX_CHUNK_RETRIES
    }

    /// A session whose file already holds `offset` bytes.
    pub fn start(supports_resume: bool, offset: u64, total: Option<u64>) -> (r: DownloadSession)
        ensures
            r.wf(),
            r == (DownloadSession {
                downloaded: offset,
                total,
                supports_resume,
                consecutive_errors: 0,
                last_emit_step: offset / EMIT_STEP_BYTES,
            }),
    {
        DownloadSession {
            downloaded: offset,
            total,
            supports_resume,
            consecutive_errors: 0,
            last_emit_step: offset / EMIT_STEP_BYTES,
        }
    }

    /// A chunk of `len` bytes was appended to the file; true when progress
    /// is to be reported: another 10 MiB arrived, or the announced total
    /// is reached.
    pub fn on_chunk(&mut self, len: u64) -> (emit: bool)
        requires
            old(self).downloaded + len <= u64::MAX,
        ensures
            final(self).downloaded == old(self).downloaded + len,
            final(self).consecutive_errors == 0,
            final(self).total == old(self).total,
            final(self).supports_resume == old(self).supports_resume,
            emit == (final(self).downloaded / EMIT_STEP_BYTES > old(self).last_emit_step || (
            old(self).total is Some && final(self).downloaded >= old(self).total->0)),
            final(self).last_emit_step == if emit {
                final(self).downloaded / EMIT_STEP_BYTES
            } else {
                old(self).last_emit_step
            },
            final(self).wf(),
    {
        self.consecutive_errors = 0;
        self.downloaded = self.downloaded + len;
        let step = self.downloaded / EMIT_STEP_BYTES;
        let reached = match self.total {
            Some(t) => self.downloaded >= t,
            None => false,
        };
        let emit = step > self.last_emit_step || reached;
        if emit {
            self.last_emit_step = step;
        }
        emit
    }

    /// A chunk read failed: give up after too many failures in a row or
    /// when the origin cannot resume; otherwise retry from the bytes
    /// already in the file after the backoff delay.
    pub fn on_chunk_error(&mut self) -> (r: ChunkFailure)
        requires
            old(self).wf(),
        ensures
            *final(self) == (DownloadSession {
                consecutive_errors: (old(self).consecutive_errors + 1) as u32,
                ..*old(self)
            }),
            r == if final(self).consecutive_errors >= MAX_CHUNK_RETRIES {
                ChunkFailure::GiveUp(DownloadError::RetriesExhausted)
            } else if !old(self).supports_resume {
                ChunkFailure::GiveUp(DownloadError::NoResume)
            } else {
                ChunkFailure::Retry {
                    delay_ms: backoff_spec(old(self).consecutive_errors) as u64,
                    from: old(self).downloaded,
                }
            },
            r is Retry ==> final(self).wf(),
    {
        self.consecutive_errors = self.consecutive_errors + 1;
        if self.consecutive_errors >= MAX_CHUNK_RETRIES {
            return ChunkFailure::GiveUp(DownloadError::RetriesExhausted);
        }
        if !self.supports_resume {
            return ChunkFailure::GiveUp(DownloadError::NoResume);
        }
        ChunkFailure::Retry {
            delay_ms: calculate_backoff_delay(self.consecutive_errors - 1),
            from: self.downloaded,
        }
    }
}

/// The expected checksum was not met.
#[derive(Clone, Copy, Debug, PartialEq, Eq, Structural)]
pub struct ChecksumMismatch;

/// Whether a download passes its checksum, given both digests already
/// folded to lower case: an empty expectation skips the check.
pub fn digests_match(expected: &str, computed_lower: &str, expected_lower: &str) -> (r: bool)
    ensures
        r == (expected@.len() == 0 || computed_lower@ == expected_lower@),
{
    if expected.unicode_len() == 0 {
        return true;
    }
    same_text(computed_lower, expected_lower)
}

/// Check a computed SHA-256 hex digest against the expected one, ignoring
/// case; an empty expectation skips the check. On a mismatch the caller
/// deletes the file before it reports the failure.
pub fn verify_sha256(computed: &str, expected: &str) -> (r: Result<(), ChecksumMismatch>)
    ensures
        r is Ok <==> (expected@.len() == 0 || lower_of(computed@) == lower_of(expected@)),
{
    if expected.unicode_len() == 0 {
        return Ok(());
    }
    let c = lowercase(computed);
    let e = lowercase(expected);
    if digests_match(expected, c.as_str(), e.as_str()) {
        Ok(())
    } else {
        Err(ChecksumMismatch)
    }
}

/// Whether a digest must be computed at all: only for a non-empty
/// expectation.
pub fn checksum_required(expected: &str) -> (r: bool)
    ensures
        r == (expected@.len() > 0),
{
    expected.unicode_len() > 0
}

/// The download fields after a download ended, by success or failure: no
/// download in progress, no progress.
pub open spec fn download_ended(state: IpcState) -> IpcState {
    IpcState { is_downloading: false, download_progress: None, ..state }
}

/// Clear the download fields; done on every exit of a download.
pub fn end_download(state: &mut IpcState)
    ensures
        *final(state) == download_ended(*old(state)),
{
    update_download_status(state, false, None);
}

/// What follows a finished transfer.
#[derive(Clone, Copy, Debug, PartialEq, Eq, Structural)]
pub enum Completion {
    /// The file passed its check: unpack it.
    Unpack,
    /// The file failed its check: delete it, then report the failure.
    DiscardAndFail,
}

/// Decide what follows a finished transfer whose file has the digest
/// `computed`: a file that fails the expected checksum is discarded and the
/// download fails, with the download fields cleared at once; a file that
/// passes is unpacked and the document is left as it is.
pub fn after_transfer(state: &mut IpcState, computed: &str, expected: &str) -> (r: Completion)
    ensures
        r == Completion::DiscardAndFail <==> !(expected@.len() == 0 || lower_of(computed@)
            == lower_of(expected@)),
        r == Completion::DiscardAndFail ==> *final(state) == download_ended(*old(state)),
        r == Completion::Unpack ==> *final(state) == *old(state),
{
    match verify_sha256(computed, expected) {
        Ok(()) => Completion::Unpack,
        Err(_) => {
            end_download(state);
            Completion::DiscardAndFail
        },
    }
}

/// Whether a model archive member is a directory (created as such) rather
/// than a file (written with its parent directories).
pub fn model_member_is_dir(name: &str) -> (r: bool)
    ensures
        r == ends_with_spec(name@, "/"@),
{
    ends_with(name, "/")
}

/// The file that an archive member of the server build is extracted to:
/// the server binary and the shared libraries and shaders beside it, by
/// their base name; nothing for directories and other members.
pub open spec fn llama_member_spec(name: Seq<char>) -> Option<Seq<char>> {
    if ends_with_spec(name, "/"@) {
        None
    } else if ends_with_spec(name, "llama-server"@) || ends_with_spec(name, "llama-server.exe"@)
        || ends_with_spec(name, ".dylib"@) || ends_with_spec(name, ".dll"@) || ends_with_spec(
        name,
        ".metal"@,
    ) {
        Some(after_last(name, '/'))
    } else {
        None
    }
}

/// The server binary's file name, on any platform.
pub open spec fn is_server_binary(file: Seq<char>) -> bool {
    file == "llama-server"@ || file == "llama-server.exe"@
}

pub open spec fn opt_view(o: Option<String>) -> Option<Seq<char>> {
    match o {
        Some(s) => Some(s@),
        None => None,
    }
}

/// Where one archive member of the server build goes, if anywhere.
pub fn llama_member(name: &str) -> (r: Option<String>)
    ensures
        opt_view(r) == llama_member_spec(name@),
{
    if ends_with(name, "/") {
        return None;
    }
    if ends_with(name, "llama-server") || ends_with(name, "llama-server.exe") || ends_with(
        name,
        ".dylib",
    ) || ends_with(name, ".dll") || ends_with(name, ".metal") {
        Some(String::from_str(after_last_slash(name)))
    } else {
        None
    }
}

/// The extraction plan for a server build archive with these member
/// names: where each member goes (if anywhere), and whether the server
/// binary is among them (without it the install fails).
pub fn llama_extract_plan(names: &Vec<String>) -> (r: (Vec<Option<String>>, bool))
    ensures
        r.0@.len() == names@.len(),
        forall|i: int| 0 <= i < names@.len() ==> opt_view(#[trigger] r.0@[i]) == llama_member_spec(names@[i]@),
        r.1 == exists|i: int|
            0 <= i < names@.len() && #[trigger] llama_member_spec(names@[i]@) is Some
                && is_server_binary(llama_member_spec(names@[i]@)->0),
{
    let mut plan: Vec<Option<String>> = Vec::new();
    let mut found = false;
    let mut i: usize = 0;
    while i < names.len()
        invariant
            0 <= i <= names@.len(),
            plan@.len() == i,
            forall|j: int| 0 <= j < i ==> opt_view(#[trigger] plan@[j]) == llama_member_spec(names@[j]@),
            found == exists|j: int|
                0 <= j < i && #[trigger] llama_member_spec(names@[j]@) is Some
                    && is_server_binary(llama_member_spec(names@[j]@)->0),
        decreases names@.len() - i,
    {
        let target = llama_member(names[i].as_str());
        let is_server = match &target {
            Some(f) => same_text(f.as_str(), "llama-server") || same_text(
                f.as_str(),
                "llama-server.exe",
            ),
            None => false,
        };
        assert(is_server == (llama_member_spec(names@[i as int]@) is Some && is_server_binary(
            llama_member_spec(names@[i as int]@)->0,
        )));
        found = found || is_server;
        plan.push(target);
        i = i + 1;
    }
    (plan, found)
}

/// Whether a file of the binaries directory belongs to an older server
/// build and is removed before an update: the server binary (on Windows
/// under either name), and files whose extension is `dylib` or `metal` (a
/// leading dot alone is no extension).
pub open spec fn stale_runtime_file_spec(name: Seq<char>, platform: Platform) -> bool {
    name == "llama-server"@ || (platform == Platform::Windows && name == "llama-server.exe"@) || (
    ends_with_spec(name, ".dylib"@) && name.len() > 6) || (ends_with_spec(name, ".metal"@)
        && name.len() > 6)
}

pub fn is_stale_runtime_file(name: &str, platform: Platform) -> (r: bool)
    ensures
        r == stale_runtime_file_spec(name@, platform),
{
    proof {
        reveal_strlit(".dylib");
        reveal_strlit(".metal");
    }
    let n = name.unicode_len();
    same_text(name, "llama-server") || (platform == Platform::Windows && same_text(
        name,
        "llama-server.exe",
    )) || (ends_with(name, ".dylib") && n > 6) || (ends_with(name, ".metal") && n > 6)
}

} // verus!
