//! Shared data model: submissions, test cases, per-case verdicts and
//! aggregate responses, plus the platform tag used by the dispatch
//! table and the forbidden-process monitor.

use vstd::prelude::*;

verus! {

/// Host platform tag. The dispatch table and the default denylist are
/// platform-conditional; the platform is decided once at startup and
/// handed in as a plain value.
#[derive(Clone, Copy, Debug, PartialEq, Eq, Structural)]
pub enum Platform {
    Windows,
    MacOs,
    Linux,
    Unknown,
}

impl Platform {
    /// The lowercase name used in monitor responses.
    pub fn name(&self) -> (r: String)
        ensures
            *self is Windows ==> r@ == "windows"@,
            *self is MacOs ==> r@ == "macos"@,
            *self is Linux ==> r@ == "linux"@,
            *self is Unknown ==> r@ == "unknown"@,
    {
        match self {
            Platform::Windows => String::from_str("windows"),
            Platform::MacOs => String::from_str("macos"),
            Platform::Linux => String::from_str("linux"),
            Platform::Unknown => String::from_str("unknown"),
        }
    }
}

/// One test case of a submission: input delivered on the child's
/// standard input, the optional expected output, and an optional
/// per-case wall-clock timeout in milliseconds.
#[derive(Debug, Clone)]
pub struct TestCase {
    pub id: i32,
    pub input: String,
    pub expected: Option<String>,
    pub timeout_ms: Option<u64>,
}

/// The default per-case wall-clock timeout in milliseconds.
pub const DEFAULT_TIMEOUT_MS: u64 = 5000;

impl TestCase {
    /// The timeout the runner must enforce for this case: the explicit
    /// one when present, the default otherwise.
    pub fn effective_timeout_ms(&self) -> (r: u64)
        ensures
            r == match self.timeout_ms {
                Some(t) => t,
                None => DEFAULT_TIMEOUT_MS,
            },
    {
        match self.timeout_ms {
            Some(t) => t,
            None => DEFAULT_TIMEOUT_MS,
        }
    }
}

/// A submission: language key, source code, ordered test cases.
#[derive(Debug, Clone)]
pub struct ExecuteRequest {
    pub language: String,
    pub code: String,
    pub testcases: Vec<TestCase>,
}

/// The verdict for one test case.
#[derive(Debug, Clone)]
pub struct CaseResult {
    pub id: i32,
    pub ok: bool,
    pub passed: bool,
    pub input: String,
    pub expected: Option<String>,
    pub stdout: String,
    pub stderr: String,
    pub timed_out: bool,
    pub duration_ms: u64,
    pub memory_kb: u64,
    pub exit_code: Option<i32>,
    pub term_signal: Option<i32>,
}

/// Overall status tag of an execution response.
#[derive(Debug, Clone, Copy, PartialEq, Eq, Structural)]
pub enum ExecutionStatus {
    Success,
    Error,
    Timeout,
    CompileError,
    RuntimeError,
    UnsupportedLanguage,
}

/// The aggregate outcome of one submission.
#[derive(Debug, Clone)]
pub struct ExecuteResponse {
    pub compiled: bool,
    pub language: String,
    pub status: Option<ExecutionStatus>,
    pub message: Option<String>,
    pub results: Vec<CaseResult>,
    pub total_duration_ms: u64,
}

} // verus!
