//! Core of a localhost exam-proctoring agent.
//!
//! The crate owns the proctoring core: the shared data model for
//! submissions and verdicts, the read-only language dispatch table,
//! the classifier for toolchain version probes, the priority-aware
//! job queue with its dead-letter sideband, the job registry that
//! tracks every submission from admission to its terminal state, the
//! per-case verdict logic of the sandboxed runner, and the
//! forbidden-process detector.
//!
//! Everything that talks to the operating system - HTTP transport,
//! child processes, the process table, scratch directories - lives
//! outside this crate and hands plain values in and out.

pub mod types;
pub mod text;
pub mod language;
pub mod prober;
pub mod rusq;
pub mod registry;
pub mod runner;
pub mod monitor;

pub use types::{TestCase, ExecuteRequest, ExecuteResponse, CaseResult, ExecutionStatus};
pub use language::{LanguageConfig, LanguageInfo};
pub use rusq::{Priority, Message, RusqConfig, RusqMetrics, MpmcQueue, RusqError};
