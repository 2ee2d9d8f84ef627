//! Job registry and admission control.
//!
//! Jobs are keyed by a monotonic 64-bit id handed out at admission.
//! A job moves through `Queued`, `Running` and one terminal state;
//! a terminal state is never rewritten.

use vstd::prelude::*;
use std::collections::HashMap;
use crate::types::ExecuteResponse;
use crate::text::{has_str, str_eq};

verus! {

broadcast use vstd::std_specs::hash::group_hash_axioms;

/// Lifecycle state of a job.
#[derive(Debug)]
pub enum JobState {
    Queued,
    Running,
    Completed(ExecuteResponse),
    Error(String),
}

impl JobState {
    /// `Completed` and `Error` are terminal.
    pub open spec fn is_terminal_spec(&self) -> bool {
        self is Completed || self is Error
    }

    /// Executable form of [`JobState::is_terminal_spec`].
    pub fn is_terminal(&self) -> (r: bool)
        ensures
            r == self.is_terminal_spec(),
    {
        match self {
            JobState::Completed(_) => true,
            JobState::Error(_) => true,
            _ => false,
        }
    }
}

/// The registry: job states keyed by id, and the id the next
/// admission will receive.
pub struct JobRegistry {
    next_id: u64,
    jobs: HashMap<u64, JobState>,
}

impl JobRegistry {
    /// The id the next admitted job will get.
    pub closed spec fn spec_next_id(&self) -> u64 {
        self.next_id
    }

    /// The stored job states.
    pub closed spec fn jobs_map(&self) -> Map<u64, JobState> {
        self.jobs@
    }

    /// Every stored id was handed out before `next_id`.
    pub closed spec fn wf(&self) -> bool {
        forall|k: u64| #[trigger] self.jobs@.contains_key(k) ==> k < self.next_id
    }

    /// An empty registry; ids start at 1.
    pub fn new() -> (r: JobRegistry)
        ensures
            r.wf(),
            r.jobs_map() == Map::<u64, JobState>::empty(),
            r.spec_next_id() == 1,
    {
        JobRegistry { next_id: 1, jobs: HashMap::new() }
    }

    /// Admission: `id` was handed out, the counter advanced, and the
    /// job is stored as `Queued` under a previously unused id.
    pub open spec fn admitted(pre: JobRegistry, post: JobRegistry, id: u64) -> bool {
        &&& id == pre.spec_next_id()
        &&& post.spec_next_id() == pre.spec_next_id() + 1
        &&& !pre.jobs_map().contains_key(id)
        &&& post.jobs_map() == pre.jobs_map().insert(id, JobState::Queued)
    }

    /// An in-flight job was moved to state `st`; terminal states are
    /// never the starting point of such a step.
    pub open spec fn updated(pre: JobRegistry, post: JobRegistry, id: u64, st: JobState) -> bool {
        &&& pre.jobs_map().contains_key(id)
        &&& !pre.jobs_map()[id].is_terminal_spec()
        &&& post.jobs_map() == pre.jobs_map().insert(id, st)
        &&& post.spec_next_id() == pre.spec_next_id()
    }

    /// Any step the registry can take.
    pub open spec fn step(pre: JobRegistry, post: JobRegistry) -> bool {
        ||| exists|id: u64| #[trigger] Self::admitted(pre, post, id)
        ||| exists|id: u64, st: JobState| #[trigger] Self::updated(pre, post, id, st)
        ||| post == pre
    }

    /// Allocate the next id and store the job as `Queued`.
    pub fn accept(&mut self) -> (id: u64)
        requires
            old(self).wf(),
            old(self).spec_next_id() < u64::MAX,
        ensures
            final(self).wf(),
            Self::admitted(*old(self), *final(self), id),
    {
        let id = self.next_id;
        self.next_id = self.next_id + 1;
        self.jobs.insert(id, JobState::Queued);
        id
    }

    /// Whether another admission is possible without exhausting ids.
    pub fn can_accept(&self) -> (r: bool)
        ensures
            r == (self.spec_next_id() < u64::MAX),
    {
        self.next_id < u64::MAX
    }

    /// Move a stored, non-terminal job to `Running`.  Returns false,
    /// changing nothing, when the job is unknown or already terminal.
    pub fn set_running(&mut self, id: u64) -> (r: bool)
        requires
            old(self).wf(),
        ensures
            final(self).wf(),
            r == (old(self).jobs_map().contains_key(id) && !old(self).jobs_map()[
                id
            ].is_terminal_spec()),
            r ==> Self::updated(*old(self), *final(self), id, JobState::Running),
            !r ==> *final(self) == *old(self),
    {
        let proceed = match self.jobs.get(&id) {
            Some(st) => !st.is_terminal(),
            None => false,
        };
        if proceed {
            self.jobs.insert(id, JobState::Running);
            true
        } else {
            false
        }
    }

    /// Record the verdict of a finished job.  Returns false, changing
    /// nothing, when the job is unknown or already terminal.
    pub fn complete(&mut self, id: u64, response: ExecuteResponse) -> (r: bool)
        requires
            old(self).wf(),
        ensures
            final(self).wf(),
            r == (old(self).jobs_map().contains_key(id) && !old(self).jobs_map()[
                id
            ].is_terminal_spec()),
            r ==> Self::updated(*old(self), *final(self), id, JobState::Completed(response)),
            !r ==> *final(self) == *old(self),
    {
        let proceed = match self.jobs.get(&id) {
            Some(st) => !st.is_terminal(),
            None => false,
        };
        if proceed {
            self.jobs.insert(id, JobState::Completed(response));
            true
        } else {
            false
        }
    }

    /// Record a framework failure of a job.  Returns false, changing
    /// nothing, when the job is unknown or already terminal.
    pub fn fail(&mut self, id: u64, error: String) -> (r: bool)
        requires
            old(self).wf(),
        ensures
            final(self).wf(),
            r == (old(self).jobs_map().contains_key(id) && !old(self).jobs_map()[
                id
            ].is_terminal_spec()),
            r ==> Self::updated(*old(self), *final(self), id, JobState::Error(error)),
            !r ==> *final(self) == *old(self),
    {
        let proceed = match self.jobs.get(&id) {
            Some(st) => !st.is_terminal(),
            None => false,
        };
        if proceed {
            self.jobs.insert(id, JobState::Error(error));
            true
        } else {
            false
        }
    }

    /// Look a job up for the status poll.
    pub fn status(&self, id: u64) -> (r: Option<&JobState>)
        ensures
            match r {
                Some(st) => self.jobs_map().contains_key(id) && *st == self.jobs_map()[id],
                None => !self.jobs_map().contains_key(id),
            },
    {
        self.jobs.get(&id)
    }

    /// How many jobs the registry holds.
    pub fn job_count(&self) -> (r: usize)
        ensures
            r == self.jobs_map().len(),
    {
        self.jobs.len()
    }
}

/// Admission control: a submission in an available language is
/// admitted and queued; any other language is rejected and the
/// registry is left untouched.
pub fn accept_request(registry: &mut JobRegistry, available: &Vec<String>, language: &String) -> (r:
    Option<u64>)
    requires
        old(registry).wf(),
        old(registry).spec_next_id() < u64::MAX,
    ensures
        final(registry).wf(),
        has_str(available@, language@) ==> r is Some && JobRegistry::admitted(
            *old(registry),
            *final(registry),
            r->0,
        ),
        !has_str(available@, language@) ==> r is None && *final(registry) == *old(registry),
{
    let mut found = false;
    let mut i: usize = 0;
    while i < available.len()
        invariant
            i <= available.len(),
            found == exists|k: int| 0 <= k < i && available@[k]@ == language@,
        decreases available.len() - i,
    {
        if str_eq(available[i].as_str(), language.as_str()) {
            found = true;
        }
        i = i + 1;
    }
    if found {
        Some(registry.accept())
    } else {
        None
    }
}

/// Job-id monotonicity: two successive admissions hand out strictly
/// increasing ids.
pub proof fn lemma_job_ids_strictly_increase(
    r0: JobRegistry,
    r1: JobRegistry,
    r2: JobRegistry,
    id1: u64,
    id2: u64,
)
    requires
        JobRegistry::admitted(r0, r1, id1),
        JobRegistry::admitted(r1, r2, id2),
    ensures
        id1 < id2,
{
}

/// Terminal-state stability: once a job is stored as `Completed` or
/// `Error`, no registry step changes its stored state.
pub proof fn lemma_terminal_state_stable(pre: JobRegistry, post: JobRegistry, id: u64)
    requires
        pre.wf(),
        JobRegistry::step(pre, post),
        pre.jobs_map().contains_key(id),
        pre.jobs_map()[id].is_terminal_spec(),
    ensures
        post.jobs_map().contains_key(id),
        post.jobs_map()[id] == pre.jobs_map()[id],
{
    if exists|fresh: u64| #[trigger] JobRegistry::admitted(pre, post, fresh) {
        let fresh = choose|fresh: u64| #[trigger] JobRegistry::admitted(pre, post, fresh);
        assert(fresh != id);
    } else if exists|other: u64, st: JobState|
        #[trigger] JobRegistry::updated(pre, post, other, st) {
        let (other, st) = choose|other: u64, st: JobState|
            #[trigger] JobRegistry::updated(pre, post, other, st);
        assert(other != id);
    }
}

} // verus!
