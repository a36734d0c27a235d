//! What the server knows of each job: queued, running, finished or absent.

use crate::ident::Uuid;
use std::collections::HashSet;
use std::collections::VecDeque;
use vstd::prelude::*;

verus! {

broadcast use vstd::std_specs::hash::group_hash_axioms;

/// Status of a queried job.
#[derive(Debug, Clone, Copy, PartialEq, Eq, Structural)]
pub enum JobStatus {
    /// The server does not know the job.
    NotFound,
    /// The job is in the queue and awaits execution.
    InQueue,
    /// The job is being run.
    Running,
    /// The job has finished and its result can be fetched.
    Finished,
}

/// Mathematical model of a [`ServerStatus`]: the job that runs, the queue in
/// order of admission, and the set of finished jobs.
pub struct ServerStatusView {
    pub current_job: Option<Uuid>,
    pub queued: Seq<Uuid>,
    pub finished: Set<Uuid>,
}

impl ServerStatusView {
    /// No job is known in two ways: the queue holds no job twice, and the
    /// running job, the queued jobs and the finished jobs are pairwise
    /// disjoint.
    pub open spec fn wf(self) -> bool {
        &&& self.queued.no_duplicates()
        &&& self.finished.finite()
        &&& forall|i: int| 0 <= i < self.queued.len() ==> !self.finished.contains(#[trigger] self.queued[i])
        &&& self.current_job matches Some(id) ==> !self.queued.contains(id)
            && !self.finished.contains(id)
    }

    /// What the server knows of job `id`.
    pub open spec fn status_of(self, id: Uuid) -> JobStatus {
        if self.current_job == Some(id) {
            JobStatus::Running
        } else if self.queued.contains(id) {
            JobStatus::InQueue
        } else if self.finished.contains(id) {
            JobStatus::Finished
        } else {
            JobStatus::NotFound
        }
    }

    /// The status after job `id` was admitted: it is last in the queue.
    pub open spec fn enqueued(self, id: Uuid) -> Self {
        ServerStatusView { queued: self.queued.push(id), ..self }
    }

    /// The status after the head of the queue was started: it left the queue
    /// and runs.
    pub open spec fn started(self) -> Self {
        ServerStatusView {
            current_job: Some(self.queued[0]),
            queued: self.queued.drop_first(),
            ..self
        }
    }

    /// The status after the running job `id` finished: nothing runs, and
    /// `id` is among the finished.
    pub open spec fn finished(self, id: Uuid) -> Self {
        ServerStatusView { current_job: None, finished: self.finished.insert(id), ..self }
    }

    /// The status after the result of job `id` was dropped: the job is
    /// absent again.
    pub open spec fn cleared(self, id: Uuid) -> Self {
        ServerStatusView { finished: self.finished.remove(id), ..self }
    }

    /// A job may be admitted while the server does not know it.
    pub open spec fn may_enqueue(self, id: Uuid) -> bool {
        self.status_of(id) == JobStatus::NotFound
    }

    /// A job may be started while it heads the queue and nothing runs.
    pub open spec fn may_start(self, id: Uuid) -> bool {
        self.queued.len() > 0 && self.queued[0] == id && self.current_job is None
    }

    /// A job may finish while it is the one that runs.
    pub open spec fn may_finish(self, id: Uuid) -> bool {
        self.current_job == Some(id)
    }

    /// A job may be cleared while it is among the finished.
    pub open spec fn may_clear(self, id: Uuid) -> bool {
        self.finished.contains(id)
    }
}

/// Current status of the server.
#[derive(Debug)]
pub struct ServerStatus {
    current_job: Option<Uuid>,
    jobs_in_queue: VecDeque<Uuid>,
    jobs_finished: HashSet<Uuid>,
}

impl View for ServerStatus {
    type V = ServerStatusView;

    closed spec fn view(&self) -> ServerStatusView {
        ServerStatusView {
            current_job: self.current_job,
            queued: self.jobs_in_queue@,
            finished: self.jobs_finished@,
        }
    }
}

impl ServerStatus {
    /// Every status that exists is well formed.
    #[verifier::type_invariant]
    pub closed spec fn inv(self) -> bool {
        self@.wf()
    }

    /// What the invariant of the type says of the model.
    pub proof fn inv_is_wf(self)
        requires
            self.inv(),
        ensures
            self@.wf(),
    {
    }
}

impl Default for ServerStatus {
    fn default() -> (r: Self)
        ensures
            r@.current_job is None,
            r@.queued == Seq::<Uuid>::empty(),
            r@.finished == Set::<Uuid>::empty(),
            r@.wf(),
    {
        ServerStatus::new()
    }
}

impl ServerStatus {
    /// The status of a server that knows no job.
    pub fn new() -> (r: Self)
        ensures
            r@.current_job is None,
            r@.queued == Seq::<Uuid>::empty(),
            r@.finished == Set::<Uuid>::empty(),
            r@.wf(),
    {
        assert(Seq::<Uuid>::empty().no_duplicates());
        ServerStatus {
            current_job: None,
            jobs_in_queue: VecDeque::new(),
            jobs_finished: HashSet::new(),
        }
    }

    /// Hands out the status and leaves that of a server that knows no job.
    fn take(&mut self) -> (r: Self)
        ensures
            r == *old(self),
            r@.wf(),
    {
        proof {
            use_type_invariant(&*self);
        }
        let mut taken = ServerStatus::new();
        core::mem::swap(self, &mut taken);
        taken
    }

    /// Marks the job at the head of the queue as started.
    pub fn job_started(&mut self, id: Uuid)
        requires
            old(self)@.may_start(id),
        ensures
            final(self)@ == old(self)@.started(),
            final(self)@.wf(),
    {
        proof {
            use_type_invariant(&*self);
            started_keeps_wf(self@, id);
            assert(self@.queued.subrange(1, self@.queued.len() as int) =~= self@.queued.drop_first());
        }
        let ServerStatus { current_job: _, jobs_in_queue: mut queue, jobs_finished } = self.take();
        let _ = queue.pop_front();
        *self = ServerStatus { current_job: Some(id), jobs_in_queue: queue, jobs_finished };
    }

    /// Marks the running job as finished.
    pub fn job_finished(&mut self, id: Uuid)
        requires
            old(self)@.may_finish(id),
        ensures
            final(self)@ == old(self)@.finished(id),
            final(self)@.wf(),
    {
        proof {
            use_type_invariant(&*self);
            finished_keeps_wf(self@, id);
        }
        let ServerStatus { current_job: _, jobs_in_queue, jobs_finished: mut finished } = self.take();
        let _ = finished.insert(id);
        *self = ServerStatus { current_job: None, jobs_in_queue, jobs_finished: finished };
    }

    /// Removes a finished job; the server knows it no longer. A job that is
    /// not among the finished leaves the status as it was.
    pub fn job_cleared(&mut self, id: Uuid)
        ensures
            final(self)@ == old(self)@.cleared(id),
            final(self)@.wf(),
    {
        proof {
            use_type_invariant(&*self);
            cleared_keeps_wf(self@, id);
        }
        let ServerStatus { current_job, jobs_in_queue, jobs_finished: mut finished } = self.take();
        let _ = finished.remove(&id);
        *self = ServerStatus { current_job, jobs_in_queue, jobs_finished: finished };
    }

    /// Puts a job that the server does not know at the end of the queue.
    pub fn job_enqueued(&mut self, id: Uuid)
        requires
            old(self)@.may_enqueue(id),
        ensures
            final(self)@ == old(self)@.enqueued(id),
            final(self)@.wf(),
    {
        proof {
            use_type_invariant(&*self);
            enqueued_keeps_wf(self@, id);
        }
        let ServerStatus { current_job, jobs_in_queue: mut queue, jobs_finished } = self.take();
        queue.push_back(id);
        *self = ServerStatus { current_job, jobs_in_queue: queue, jobs_finished };
    }

    /// What the server knows of job `id`.
    pub fn job_status(&self, id: Uuid) -> (r: JobStatus)
        ensures
            r == self@.status_of(id),
            self@.wf(),
    {
        proof {
            use_type_invariant(self);
        }
        match self.current_job {
            Some(current) => {
                if current == id {
                    return JobStatus::Running;
                }
            },
            None => {},
        }
        let mut i: usize = 0;
        while i < self.jobs_in_queue.len()
            invariant
                i <= self.jobs_in_queue.len(),
                self@.wf(),
                self.current_job != Some(id),
                forall|k: int| 0 <= k < i ==> self.jobs_in_queue@[k] != id,
            decreases self.jobs_in_queue.len() - i,
        {
            if self.jobs_in_queue[i] == id {
                assert(self@.queued[i as int] == id);
                return JobStatus::InQueue;
            }
            i += 1;
        }
        if self.jobs_finished.contains(&id) {
            return JobStatus::Finished;
        }
        JobStatus::NotFound
    }

    /// The job that runs, if one does.
    pub fn current_job(&self) -> (r: Option<Uuid>)
        ensures
            r == self@.current_job,
    {
        self.current_job
    }

    /// The job at the head of the queue, if the queue holds one.
    pub fn next_in_queue(&self) -> (r: Option<Uuid>)
        ensures
            r == if self@.queued.len() > 0 {
                Some(self@.queued[0])
            } else {
                None
            },
    {
        if self.jobs_in_queue.len() > 0 {
            Some(self.jobs_in_queue[0])
        } else {
            None
        }
    }

    /// The queued jobs, in order of admission.
    pub fn jobs_in_queue(&self) -> (r: &VecDeque<Uuid>)
        ensures
            r@ == self@.queued,
    {
        &self.jobs_in_queue
    }

    /// The finished jobs.
    pub fn jobs_finished(&self) -> (r: &HashSet<Uuid>)
        ensures
            r@ == self@.finished,
    {
        &self.jobs_finished
    }

    /// Number of queued jobs.
    pub fn queue_len(&self) -> (r: usize)
        ensures
            r == self@.queued.len(),
    {
        self.jobs_in_queue.len()
    }

    /// Number of finished jobs.
    pub fn finished_len(&self) -> (r: usize)
        ensures
            r == self@.finished.len(),
    {
        self.jobs_finished.len()
    }
}

/// Admission keeps the status well formed, and knows the job as queued.
pub proof fn enqueued_keeps_wf(s: ServerStatusView, id: Uuid)
    requires
        s.wf(),
        s.may_enqueue(id),
    ensures
        s.enqueued(id).wf(),
        s.enqueued(id).status_of(id) == JobStatus::InQueue,
{
    let q = s.queued.push(id);
    assert(q[s.queued.len() as int] == id);
    assert forall|i: int, j: int| 0 <= i < q.len() && 0 <= j < q.len() && i != j implies q[i]
        != q[j] by {
        if i == s.queued.len() {
            assert(s.queued.contains(q[j]));
        } else if j == s.queued.len() {
            assert(s.queued.contains(q[i]));
        }
    }
    assert forall|i: int| 0 <= i < q.len() implies !s.finished.contains(#[trigger] q[i]) by {
        if i < s.queued.len() {
            assert(q[i] == s.queued[i]);
        }
    }
    if let Some(current) = s.current_job {
        if q.contains(current) {
            let k = choose|k: int| 0 <= k < q.len() && q[k] == current;
            if k < s.queued.len() {
                assert(s.queued[k] == current);
            }
        }
    }
}

/// Starting the head of the queue keeps the status well formed, and knows
/// the job as running.
pub proof fn started_keeps_wf(s: ServerStatusView, id: Uuid)
    requires
        s.wf(),
        s.may_start(id),
    ensures
        s.started().wf(),
        s.started().status_of(id) == JobStatus::Running,
{
    let q = s.queued.drop_first();
    assert forall|i: int| 0 <= i < q.len() implies q[i] == s.queued[i + 1] by {}
    assert forall|i: int| 0 <= i < q.len() implies !s.finished.contains(#[trigger] q[i]) by {
        assert(q[i] == s.queued[i + 1]);
    }
    if q.contains(id) {
        let k = choose|k: int| 0 <= k < q.len() && q[k] == id;
        assert(s.queued[k + 1] == s.queued[0]);
    }
    assert(!s.finished.contains(s.queued[0]));
}

/// Finishing the running job keeps the status well formed, and knows the job
/// as finished.
pub proof fn finished_keeps_wf(s: ServerStatusView, id: Uuid)
    requires
        s.wf(),
        s.may_finish(id),
    ensures
        s.finished(id).wf(),
        s.finished(id).status_of(id) == JobStatus::Finished,
{
    assert forall|i: int| 0 <= i < s.queued.len() implies !s.finished.insert(id).contains(
        #[trigger] s.queued[i],
    ) by {
        if s.queued[i] == id {
            assert(s.queued.contains(id));
        }
    }
}

/// Clearing a job keeps the status well formed; a job that was finished is
/// known no longer.
pub proof fn cleared_keeps_wf(s: ServerStatusView, id: Uuid)
    requires
        s.wf(),
    ensures
        s.cleared(id).wf(),
        s.may_clear(id) ==> s.cleared(id).status_of(id) == JobStatus::NotFound,
        !s.may_clear(id) ==> s.cleared(id) == s,
{
    if s.queued.contains(id) {
        let k = choose|k: int| 0 <= k < s.queued.len() && s.queued[k] == id;
        assert(!s.finished.contains(s.queued[k]));
    }
    if !s.may_clear(id) {
        assert(s.finished.remove(id) =~= s.finished);
    }
}



/// In a well-formed status a job is known in at most one way: running,
/// queued and finished exclude one another.
pub proof fn known_in_one_way(s: ServerStatusView, id: Uuid)
    requires
        s.wf(),
    ensures
        s.current_job == Some(id) ==> !s.queued.contains(id) && !s.finished.contains(id),
        s.queued.contains(id) ==> s.current_job != Some(id) && !s.finished.contains(id),
        s.finished.contains(id) ==> s.current_job != Some(id) && !s.queued.contains(id),
{
    if s.queued.contains(id) {
        let k = choose|k: int| 0 <= k < s.queued.len() && s.queued[k] == id;
        assert(!s.finished.contains(s.queued[k]));
    }
}

} // verus!
