//! Verdict logic of the execution runner, and the tracker that keeps
//! concurrent jobs in disjoint scratch workspaces.
//!
//! The host spawns the compile and run children and observes them;
//! everything it observes about one test case comes back here as a
//! [`CaseObservation`], and the verdict and the aggregate response
//! are computed and proved here.

use vstd::prelude::*;
use crate::types::{TestCase, CaseResult, ExecuteResponse, ExecutionStatus};
use crate::text::{has_str, str_eq};

verus! {

/// Raw facts the host observed about one child run.
#[derive(Debug, Clone)]
pub struct CaseObservation {
    /// The child exited on its own with a success status.
    pub exited_cleanly: bool,
    /// The per-case wall-clock timeout fired before the child exited.
    pub timed_out: bool,
    /// Captured standard output, decoded from the raw bytes.
    pub stdout: String,
    /// Captured standard error, decoded from the raw bytes.
    pub stderr: String,
    /// Wall-clock time of the case in milliseconds.
    pub duration_ms: u64,
    /// Exit code, when the child exited normally.
    pub exit_code: Option<i32>,
    /// Terminating signal, when the child was killed by one.
    pub term_signal: Option<i32>,
}

/// A case passes exactly when an expected output is present and
/// the captured stdout equals it byte for byte, with no trimming
/// and no newline rewriting.
pub open spec fn passed_spec(expected: Option<String>, stdout: Seq<char>) -> bool {
    match expected {
        Some(e) => stdout == e@,
        None => false,
    }
}

/// `r` is the verdict that test case `tc` and observation `obs`
/// demand: `ok` holds exactly when the child exited cleanly and the
/// timeout did not fire (so a timed-out case is never `ok`);
/// `passed` follows [`passed_spec`]; the streams, timing and exit
/// metadata are carried over; `memory_kb` is reserved and always
/// zero.
pub open spec fn case_verdict(tc: TestCase, obs: CaseObservation, r: CaseResult) -> bool {
    &&& r.id == tc.id
    &&& r.ok == (obs.exited_cleanly && !obs.timed_out)
    &&& r.passed == passed_spec(tc.expected, obs.stdout@)
    &&& r.input == tc.input
    &&& r.expected == tc.expected
    &&& r.stdout == obs.stdout
    &&& r.stderr == obs.stderr
    &&& r.timed_out == obs.timed_out
    &&& r.duration_ms == obs.duration_ms
    &&& r.memory_kb == 0
    &&& r.exit_code == obs.exit_code
    &&& r.term_signal == obs.term_signal
}

/// Turn one observation into the verdict for its test case.
pub fn make_case_result(tc: &TestCase, obs: CaseObservation) -> (r: CaseResult)
    ensures
        case_verdict(*tc, obs, r),
        obs.timed_out ==> !r.ok,
{
    let passed = match &tc.expected {
        Some(e) => {
            let eq = str_eq(obs.stdout.as_str(), e.as_str());
            proof {
                assert(tc.expected == Some(*e));
            }
            eq
        },
        None => false,
    };
    let expected = match &tc.expected {
        Some(e) => Some(e.clone()),
        None => None,
    };
    CaseResult {
        id: tc.id,
        ok: obs.exited_cleanly && !obs.timed_out,
        passed,
        input: tc.input.clone(),
        expected,
        stdout: obs.stdout,
        stderr: obs.stderr,
        timed_out: obs.timed_out,
        duration_ms: obs.duration_ms,
        memory_kb: 0,
        exit_code: obs.exit_code,
        term_signal: obs.term_signal,
    }
}

/// Turn the observations of a whole run into its verdicts: one
/// [`CaseResult`] per test case, in submission order, each fixed by
/// [`case_verdict`] against the observation of the same position.
pub fn assemble_case_results(testcases: &Vec<TestCase>, observations: Vec<CaseObservation>) -> (r:
    Vec<CaseResult>)
    requires
        observations@.len() == testcases@.len(),
    ensures
        r@.len() == testcases@.len(),
        forall|i: int|
            0 <= i < r@.len() ==> case_verdict(testcases@[i], observations@[i], #[trigger] r@[i]),
{
    let mut remaining = observations;
    let mut results: Vec<CaseResult> = Vec::new();
    let mut i: usize = 0;
    while i < testcases.len()
        invariant
            i <= testcases@.len(),
            observations@.len() == testcases@.len(),
            remaining@ == observations@.skip(i as int),
            results@.len() == i,
            forall|k: int|
                0 <= k < i ==> case_verdict(
                    testcases@[k],
                    observations@[k],
                    #[trigger] results@[k],
                ),
        decreases testcases.len() - i,
    {
        let obs = remaining.remove(0);
        proof {
            assert(obs == observations@[i as int]);
            assert(remaining@ =~= observations@.skip(i + 1));
        }
        results.push(make_case_result(&testcases[i], obs));
        i = i + 1;
    }
    results
}

/// The sum of the per-case durations, as an unbounded integer.
pub open spec fn total_duration(results: Seq<CaseResult>) -> int
    decreases results.len(),
{
    if results.len() == 0 {
        0
    } else {
        total_duration(results.drop_last()) + results.last().duration_ms
    }
}

/// The aggregate response of a run that got through all its cases:
/// `status` is `success` even when individual cases failed.  The
/// total duration is the sum of the case durations, saturating at
/// the largest representable value.
pub fn success_response(language: String, compiled: bool, results: Vec<CaseResult>) -> (r:
    ExecuteResponse)
    ensures
        r.compiled == compiled,
        r.language == language,
        r.status == Some(ExecutionStatus::Success),
        r.message is None,
        r.results == results,
        total_duration(results@) <= u64::MAX ==> r.total_duration_ms == total_duration(results@),
        total_duration(results@) > u64::MAX ==> r.total_duration_ms == u64::MAX,
{
    let mut total: u64 = 0;
    let mut i: usize = 0;
    while i < results.len()
        invariant
            i <= results.len(),
            total_duration(results@.take(i as int)) <= u64::MAX ==> total == total_duration(
                results@.take(i as int),
            ),
            total_duration(results@.take(i as int)) > u64::MAX ==> total == u64::MAX,
        decreases results.len() - i,
    {
        let d = results[i].duration_ms;
        proof {
            assert(results@.take(i + 1).drop_last() =~= results@.take(i as int));
            assert(results@.take(i + 1).last() == results@[i as int]);
            lemma_total_duration_nonneg(results@.take(i as int));
        }
        if total <= u64::MAX - d {
            total = total + d;
        } else {
            total = u64::MAX;
        }
        i = i + 1;
    }
    proof {
        assert(results@.take(results@.len() as int) =~= results@);
    }
    ExecuteResponse {
        compiled,
        language,
        status: Some(ExecutionStatus::Success),
        message: None,
        results,
        total_duration_ms: total,
    }
}

pub proof fn lemma_total_duration_nonneg(results: Seq<CaseResult>)
    ensures
        total_duration(results) >= 0,
    decreases results.len(),
{
    if results.len() > 0 {
        lemma_total_duration_nonneg(results.drop_last());
    }
}

/// The response of a run whose compile step failed: not compiled,
/// tagged `compile_error`, carrying the compiler's standard error,
/// with no case results.
pub fn compile_failure_response(language: String, compiler_stderr: String) -> (r: ExecuteResponse)
    ensures
        !r.compiled,
        r.language == language,
        r.status == Some(ExecutionStatus::CompileError),
        r.message == Some(compiler_stderr),
        r.results@ == Seq::<CaseResult>::empty(),
        r.total_duration_ms == 0,
{
    ExecuteResponse {
        compiled: false,
        language,
        status: Some(ExecutionStatus::CompileError),
        message: Some(compiler_stderr),
        results: Vec::new(),
        total_duration_ms: 0,
    }
}

/// The response for a language that is not in the dispatch table.
pub fn unsupported_language_response(language: String) -> (r: ExecuteResponse)
    ensures
        !r.compiled,
        r.language == language,
        r.status == Some(ExecutionStatus::UnsupportedLanguage),
        r.message is None,
        r.results@ == Seq::<CaseResult>::empty(),
        r.total_duration_ms == 0,
{
    ExecuteResponse {
        compiled: false,
        language,
        status: Some(ExecutionStatus::UnsupportedLanguage),
        message: None,
        results: Vec::new(),
        total_duration_ms: 0,
    }
}

/// The scratch workspaces of the jobs currently in flight.  No two
/// live jobs ever share a workspace path.
pub struct WorkspaceTracker {
    active: Vec<String>,
}

impl WorkspaceTracker {
    /// The paths of the live workspaces.
    pub closed spec fn paths(&self) -> Seq<String> {
        self.active@
    }

    /// All live workspace paths are pairwise distinct.
    pub open spec fn wf(&self) -> bool {
        forall|i: int, j: int|
            0 <= i < j < self.paths().len() ==> (#[trigger] self.paths()[i])@ != (
            #[trigger] self.paths()[j])@
    }

    /// No workspace is live yet.
    pub fn new() -> (t: WorkspaceTracker)
        ensures
            t.wf(),
            t.paths().len() == 0,
    {
        WorkspaceTracker { active: Vec::new() }
    }

    /// Claim a workspace path for a new job.  Returns true and
    /// records the path when it is fresh; returns false and changes
    /// nothing when some live job already owns it.
    pub fn acquire(&mut self, path: String) -> (fresh: bool)
        requires
            old(self).wf(),
        ensures
            final(self).wf(),
            fresh == !has_str(old(self).paths(), path@),
            fresh ==> final(self).paths() == old(self).paths().push(path),
            !fresh ==> *final(self) == *old(self),
    {
        let mut i: usize = 0;
        while i < self.active.len()
            invariant
                self.active@ == old(self).active@,
                old(self).wf(),
                i <= self.active.len(),
                forall|k: int| 0 <= k < i ==> (#[trigger] self.active@[k])@ != path@,
            decreases self.active.len() - i,
        {
            if str_eq(self.active[i].as_str(), path.as_str()) {
                proof {
                    assert(has_str(self.paths(), path@));
                }
                return false;
            }
            i = i + 1;
        }
        proof {
            assert(!has_str(self.paths(), path@));
        }
        self.active.push(path);
        true
    }

    /// Drop a workspace path when its job is done and the directory
    /// is removed.  The one live occurrence of the path goes away;
    /// every other live path stays.
    pub fn release(&mut self, path: &str)
        requires
            old(self).wf(),
        ensures
            final(self).wf(),
            forall|t: Seq<char>|
                has_str(final(self).paths(), t) <==> (has_str(old(self).paths(), t) && t != path@),
    {
        let mut i: usize = 0;
        loop
            invariant
                self.active@ == old(self).active@,
                i <= self.active.len(),
                forall|k: int| 0 <= k < i ==> (#[trigger] self.active@[k])@ != path@,
            ensures
                self.active@ == old(self).active@,
                i <= self.active.len(),
                forall|k: int| 0 <= k < i ==> (#[trigger] self.active@[k])@ != path@,
                i < self.active@.len() ==> self.active@[i as int]@ == path@,
            decreases self.active.len() - i,
        {
            if i == self.active.len() {
                break;
            }
            if str_eq(self.active[i].as_str(), path) {
                break;
            }
            i = i + 1;
        }
        if i == self.active.len() {
            proof {
                assert(!has_str(self.paths(), path@));
            }
            return;
        }
        let ghost pre = self.active@;
        let ghost iv = i as int;
        self.active.remove(i);
        proof {
            pre.remove_ensures(iv);
            assert(self.active@ == pre.remove(iv));
            assert forall|t: Seq<char>|
                has_str(self.paths(), t) <==> (has_str(pre, t) && t != path@) by {
                if has_str(self.paths(), t) {
                    let k = choose|k: int| 0 <= k < self.active@.len() && self.active@[k]@ == t;
                    if k < iv {
                        assert(pre[k]@ == t);
                    } else {
                        assert(pre[k + 1]@ == t);
                        assert(pre[iv]@ != pre[k + 1]@);
                    }
                }
                if has_str(pre, t) && t != path@ {
                    let k = choose|k: int| 0 <= k < pre.len() && pre[k]@ == t;
                    assert(k != iv);
                    if k < iv {
                        assert(self.active@[k]@ == t);
                    } else {
                        assert(self.active@[k - 1]@ == t);
                    }
                }
            }
        }
    }
}

/// Workspace disjointness: any two live workspaces have distinct
/// paths.
pub proof fn lemma_workspace_disjoint(t: &WorkspaceTracker, i: int, j: int)
    requires
        t.wf(),
        0 <= i < t.paths().len(),
        0 <= j < t.paths().len(),
        i != j,
    ensures
        t.paths()[i]@ != t.paths()[j]@,
{
}

} // verus!
