use vstd::prelude::*;
use crate::error::ClientError;

verus! {

/// Where one file of a batch download stands.
#[derive(Debug, Clone, PartialEq, Eq)]
pub enum TaskState {
    /// Its path is being resolved and its download descriptor fetched.
    Preparing,
    /// Its descriptor is at hand; it waits for a streaming slot.
    Ready,
    /// Its content is being streamed to local storage.
    Streaming,
    Succeeded,
    Failed(ClientError),
}

/// The outcome reported for a task: none while it runs.
pub open spec fn outcome_of(t: TaskState) -> Option<Result<(), ClientError>> {
    match t {
        TaskState::Succeeded => Some(Ok(())),
        TaskState::Failed(e) => Some(Err(e)),
        _ => None,
    }
}

/// The state a task takes when a step of its work ends with `result`.
pub open spec fn settled(result: Result<(), ClientError>, on_ok: TaskState) -> TaskState {
    match result {
        Ok(()) => on_ok,
        Err(e) => TaskState::Failed(e),
    }
}

/// How many tasks of `s` are streaming.
pub open spec fn count_streaming(s: Seq<TaskState>) -> nat
    decreases s.len(),
{
    if s.len() == 0 {
        0
    } else {
        count_streaming(s.drop_last()) + if s.last() is Streaming { 1nat } else { 0nat }
    }
}

proof fn lemma_count_push(s: Seq<TaskState>, t: TaskState)
    ensures
        count_streaming(s.push(t)) == count_streaming(s) + if t is Streaming { 1nat } else { 0nat },
{
    assert(s.push(t).drop_last() =~= s);
}

proof fn lemma_count_update(s: Seq<TaskState>, i: int, t: TaskState)
    requires
        0 <= i < s.len(),
    ensures
        count_streaming(s.update(i, t)) + (if s[i] is Streaming { 1nat } else { 0nat })
            == count_streaming(s) + (if t is Streaming { 1nat } else { 0nat }),
    decreases s.len(),
{
    let u = s.update(i, t);
    if i == s.len() - 1 {
        assert(u.drop_last() =~= s.drop_last());
    } else {
        assert(u.drop_last() =~= s.drop_last().update(i, t));
        lemma_count_update(s.drop_last(), i, t);
    }
}

/// A batch download: one task per path, at most `bound` of them streaming at once.
pub struct TransferBatch {
    pub paths: Vec<String>,
    pub states: Vec<TaskState>,
    /// Tasks streaming now.
    pub streaming: usize,
    /// The concurrency bound on streaming tasks.
    pub bound: usize,
}

impl TransferBatch {
    pub open spec fn wf(&self) -> bool {
        &&& self.states@.len() == self.paths@.len()
        &&& self.streaming == count_streaming(self.states@)
        &&& self.streaming <= self.bound
        &&& self.bound >= 1
    }

    /// Whether every task has reached its final outcome.
    pub open spec fn spec_complete(&self) -> bool {
        forall|k: int| 0 <= k < self.states@.len() ==> outcome_of(self.states@[k]) is Some
    }

    /// A batch in which every task is being prepared.
    pub fn new(paths: Vec<String>, bound: usize) -> (r: Self)
        requires
            bound >= 1,
        ensures
            r.wf(),
            r.paths == paths,
            r.bound == bound,
            r.streaming == 0,
            forall|k: int| 0 <= k < r.states@.len() ==> r.states@[k] == TaskState::Preparing,
    {
        let mut states: Vec<TaskState> = Vec::new();
        let mut k: usize = 0;
        while k < paths.len()
            invariant
                k <= paths@.len(),
                states@.len() == k,
                count_streaming(states@) == 0,
                forall|m: int| 0 <= m < k ==> states@[m] == TaskState::Preparing,
            decreases paths@.len() - k,
        {
            proof {
                lemma_count_push(states@, TaskState::Preparing);
            }
            states.push(TaskState::Preparing);
            k = k + 1;
        }
        TransferBatch { paths, states, streaming: 0, bound }
    }

    /// Records how the preparation of task `i` (resolution and descriptor fetch) ended.
    pub fn on_prepared(&mut self, i: usize, result: Result<(), ClientError>)
        requires
            old(self).wf(),
            i < old(self).states@.len(),
            old(self).states@[i as int] == TaskState::Preparing,
        ensures
            final(self).wf(),
            final(self).paths == old(self).paths,
            final(self).bound == old(self).bound,
            final(self).streaming == old(self).streaming,
            final(self).states@ == old(self).states@.update(i as int, settled(result, TaskState::Ready)),
    {
        let t = match result {
            Ok(()) => TaskState::Ready,
            Err(e) => TaskState::Failed(e),
        };
        proof {
            lemma_count_update(self.states@, i as int, t);
        }
        self.states.set(i, t);
    }

    /// Starts streaming the first ready task, if a slot is free.
    pub fn start_next(&mut self) -> (r: Option<usize>)
        requires
            old(self).wf(),
        ensures
            final(self).wf(),
            final(self).paths == old(self).paths,
            final(self).bound == old(self).bound,
            match r {
                Some(i) => {
                    &&& old(self).streaming < old(self).bound
                    &&& i < old(self).states@.len()
                    &&& old(self).states@[i as int] == TaskState::Ready
                    &&& forall|k: int| 0 <= k < i ==> old(self).states@[k] != TaskState::Ready
                    &&& final(self).states@ == old(self).states@.update(i as int, TaskState::Streaming)
                    &&& final(self).streaming == old(self).streaming + 1
                },
                None => {
                    &&& old(self).streaming == old(self).bound || forall|k: int|
                        0 <= k < old(self).states@.len() ==> old(self).states@[k] != TaskState::Ready
                    &&& final(self).states == old(self).states
                    &&& final(self).streaming == old(self).streaming
                },
            },
    {
        if self.streaming >= self.bound {
            return None;
        }
        let mut k: usize = 0;
        while k < self.states.len()
            invariant
                self.wf(),
                self.paths == old(self).paths,
                self.states == old(self).states,
                self.bound == old(self).bound,
                self.streaming == old(self).streaming,
                self.streaming < self.bound,
                k <= self.states@.len(),
                forall|m: int| 0 <= m < k ==> self.states@[m] != TaskState::Ready,
            decreases self.states@.len() - k,
        {
            if matches!(self.states[k], TaskState::Ready) {
                proof {
                    lemma_count_update(self.states@, k as int, TaskState::Streaming);
                }
                self.states.set(k, TaskState::Streaming);
                self.streaming = self.streaming + 1;
                return Some(k);
            }
            k = k + 1;
        }
        None
    }

    /// Records how the streaming of task `i` ended, which frees its slot.
    pub fn on_streamed(&mut self, i: usize, result: Result<(), ClientError>)
        requires
            old(self).wf(),
            i < old(self).states@.len(),
            old(self).states@[i as int] == TaskState::Streaming,
        ensures
            final(self).wf(),
            final(self).paths == old(self).paths,
            final(self).bound == old(self).bound,
            final(self).streaming == old(self).streaming - 1,
            final(self).states@ == old(self).states@.update(i as int, settled(result, TaskState::Succeeded)),
    {
        let t = match result {
            Ok(()) => TaskState::Succeeded,
            Err(e) => TaskState::Failed(e),
        };
        proof {
            lemma_count_update(self.states@, i as int, t);
        }
        self.states.set(i, t);
        self.streaming = self.streaming - 1;
    }

    /// Whether every task has reached its final outcome.
    pub fn is_complete(&self) -> (r: bool)
        ensures
            r == self.spec_complete(),
    {
        let mut k: usize = 0;
        while k < self.states.len()
            invariant
                k <= self.states@.len(),
                forall|m: int| 0 <= m < k ==> outcome_of(self.states@[m]) is Some,
            decreases self.states@.len() - k,
        {
            match &self.states[k] {
                TaskState::Succeeded => {},
                TaskState::Failed(_) => {},
                _ => {
                    return false;
                },
            }
            k = k + 1;
        }
        true
    }

    /// The outcome of every task, path by path, in the order of the paths.
    pub fn report(&self) -> (r: Vec<(String, Result<(), ClientError>)>)
        requires
            self.wf(),
            self.spec_complete(),
        ensures
            r@.len() == self.paths@.len(),
            forall|k: int| 0 <= k < r@.len() ==> r@[k].0 == self.paths@[k] && Some(r@[k].1)
                == outcome_of(self.states@[k]),
    {
        let mut out: Vec<(String, Result<(), ClientError>)> = Vec::new();
        let mut k: usize = 0;
        while k < self.states.len()
            invariant
                self.wf(),
                self.spec_complete(),
                k <= self.states@.len(),
                out@.len() == k,
                forall|m: int| 0 <= m < k ==> out@[m].0 == self.paths@[m] && Some(out@[m].1)
                    == outcome_of(self.states@[m]),
            decreases self.states@.len() - k,
        {
            let outcome = match &self.states[k] {
                TaskState::Failed(e) => Err(e.duplicate()),
                _ => Ok(()),
            };
            assert(outcome_of(self.states@[k as int]) is Some);
            out.push((self.paths[k].clone(), outcome));
            k = k + 1;
        }
        out
    }
}

/// At no moment do more tasks stream than the bound allows.
pub proof fn lemma_streaming_within_bound(b: TransferBatch)
    requires
        b.wf(),
    ensures
        count_streaming(b.states@) <= b.bound,
{
}

/// A task's final outcome, success or failure, changes no other task's state:
/// the rest of the batch goes on and is reported as before.
pub proof fn lemma_outcome_isolated(states: Seq<TaskState>, i: int, t: TaskState)
    requires
        0 <= i < states.len(),
    ensures
        forall|k: int| 0 <= k < states.len() && k != i ==> outcome_of(states.update(i, t)[k])
            == outcome_of(states[k]),
{
}

} // verus!
