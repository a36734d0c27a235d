//! Admission of jobs and the bounded store of finished results.

use crate::ident::{is_version_four, Uuid};
use crate::job::{distinct_task_ids, Job, JobDesc, JobResult, JobView};
use crate::status::{
    cleared_keeps_wf, enqueued_keeps_wf, finished_keeps_wf, JobStatus, ServerStatus,
    ServerStatusView,
};
use crate::target::Targets;
use crate::validate::{coherent, decoded, validation_errors, ValidationErrors};
use std::collections::VecDeque;
use tokio::sync::mpsc::error::TrySendError;
use tokio::sync::mpsc::Sender;
use vstd::prelude::*;

verus! {

/// The sending half of a bounded channel of `tokio`.
#[verifier::external_type_specification]
#[verifier::external_body]
#[verifier::reject_recursive_types(T)]
pub struct ExSender<T>(Sender<T>);

/// How an attempt to hand a job to the executor without waiting ended.
#[derive(Debug, Clone, Copy, PartialEq, Eq, Structural)]
pub enum SendOutcome {
    /// The job is in the channel.
    Sent,
    /// The channel holds as many jobs as it can.
    Full,
    /// The executor no longer listens.
    Closed,
}

/// Why a job was not admitted.
#[derive(Debug)]
pub enum PostJobError {
    /// The description did not pass validation.
    InvalidJob(ValidationErrors),
    /// The queue is full; the client may come again.
    TooManyJobs,
    /// The executor no longer takes jobs.
    InternalQueueClosed,
    /// An identifier drawn for the job is in use: the server still knows a
    /// job under the identifier of this one, or two tasks of this job drew
    /// the same. The client may come again; identifiers are drawn anew.
    IdInUse,
}

/// Calls `Sender::try_send` of `tokio::sync::mpsc` and tells its three
/// outcomes apart. Which of them comes depends on what the channel holds and
/// on its receiver, so nothing is claimed of the result.
#[verifier::external_body]
fn try_send_job(register_job_tx: &Sender<Job>, job: Job) -> (r: SendOutcome) {
    match register_job_tx.try_send(job) {
        Ok(()) => SendOutcome::Sent,
        Err(TrySendError::Full(_)) => SendOutcome::Full,
        Err(TrySendError::Closed(_)) => SendOutcome::Closed,
    }
}

/// Concludes an admission once the outcome of the send is known: a job that
/// was sent is entered in the status as queued and handed back; a job that
/// was not leaves the status as it was.
pub fn conclude_admission(server_status: &mut ServerStatus, job: Job, outcome: SendOutcome) -> (r: Result<
    Job,
    PostJobError,
>)
    requires
        old(server_status)@.may_enqueue(job.id),
    ensures
        final(server_status)@.wf(),
        match outcome {
            SendOutcome::Sent => {
                &&& r == Ok::<Job, PostJobError>(job)
                &&& final(server_status)@ == old(server_status)@.enqueued(job.id)
                &&& final(server_status)@.status_of(job.id) == JobStatus::InQueue
            },
            SendOutcome::Full => {
                &&& r matches Err(PostJobError::TooManyJobs)
                &&& final(server_status)@ == old(server_status)@
            },
            SendOutcome::Closed => {
                &&& r matches Err(PostJobError::InternalQueueClosed)
                &&& final(server_status)@ == old(server_status)@
            },
        },
{
    proof {
        use_type_invariant(&*server_status);
        server_status.inv_is_wf();
    }
    match outcome {
        SendOutcome::Sent => {
            proof {
                enqueued_keeps_wf(server_status@, job.id);
            }
            server_status.job_enqueued(job.id);
            Ok(job)
        },
        SendOutcome::Full => Err(PostJobError::TooManyJobs),
        SendOutcome::Closed => Err(PostJobError::InternalQueueClosed),
    }
}

/// An identifier of the job is in use: the server knows a job under the
/// identifier of this one, or two of its tasks share an identifier.
pub open spec fn id_in_use(status: ServerStatusView, job: JobView) -> bool {
    status.status_of(job.id) != JobStatus::NotFound || !distinct_task_ids(job.tasks)
}

/// Admits a validated job: a job with an identifier in use is refused and
/// nothing is sent; any other is handed to the executor through
/// `register_job_tx` without waiting and, once it is in the channel, entered
/// in the status as queued and handed back. A job that is not admitted
/// leaves the status as it was.
pub fn submit(job: Job, register_job_tx: &Sender<Job>, server_status: &mut ServerStatus) -> (r:
    Result<Job, PostJobError>)
    ensures
        final(server_status)@.wf(),
        id_in_use(old(server_status)@, job@) <==> r matches Err(PostJobError::IdInUse),
        match r {
            Ok(admitted) => {
                &&& admitted == job
                &&& final(server_status)@ == old(server_status)@.enqueued(job.id)
                &&& final(server_status)@.status_of(job.id) == JobStatus::InQueue
            },
            Err(PostJobError::InvalidJob(_)) => false,
            Err(_) => final(server_status)@ == old(server_status)@,
        },
{
    if server_status.job_status(job.id) != JobStatus::NotFound || !job.has_distinct_task_ids() {
        return Err(PostJobError::IdInUse);
    }
    let outcome = try_send_job(register_job_tx, job.clone());
    conclude_admission(server_status, job, outcome)
}

/// Handles the submission of a job description: validates it against
/// `targets` and, where it is valid, admits the job as [`submit`] does. The
/// status is updated before the job is handed back, so a client that learns
/// of the job finds it queued.
pub fn post_job(
    job_desc: JobDesc,
    register_job_tx: &Sender<Job>,
    server_status: &mut ServerStatus,
    targets: &Targets,
) -> (r: Result<Job, PostJobError>)
    ensures
        final(server_status)@.wf(),
        match r {
            Ok(job) => {
                &&& coherent(decoded(job_desc@.tasks), targets@, Ok(job.tasks))
                &&& job.timeout_secs == job_desc.timeout_secs
                &&& is_version_four(job.id)
                &&& !id_in_use(old(server_status)@, job@)
                &&& final(server_status)@ == old(server_status)@.enqueued(job.id)
                &&& final(server_status)@.status_of(job.id) == JobStatus::InQueue
            },
            Err(PostJobError::InvalidJob(errors)) => {
                &&& coherent(decoded(job_desc@.tasks), targets@, Err(errors))
                &&& final(server_status)@ == old(server_status)@
            },
            Err(_) => {
                &&& validation_errors(decoded(job_desc@.tasks), targets@).len() == 0
                &&& final(server_status)@ == old(server_status)@
            },
        },
{
    match Job::from_desc(job_desc, targets) {
        Ok(job) => submit(job, register_job_tx, server_status),
        Err(errors) => {
            proof {
                use_type_invariant(&*server_status);
                server_status.inv_is_wf();
            }
            Err(PostJobError::InvalidJob(errors))
        },
    }
}

/// The identifiers of a list of results, in order.
pub open spec fn result_ids(results: Seq<JobResult>) -> Seq<Uuid> {
    Seq::new(results.len(), |i: int| results[i].id)
}

/// A store of at most `max` items after `x` came in: while there is room, `x`
/// is added; else the oldest item leaves first.
pub open spec fn collected<T>(store: Seq<T>, x: T, max: int) -> Seq<T> {
    if store.len() < max {
        store.push(x)
    } else {
        store.drop_first().push(x)
    }
}

/// The item that leaves a store of at most `max` items when one comes in.
pub open spec fn evicted<T>(store: Seq<T>, max: int) -> Option<T> {
    if store.len() < max {
        None
    } else {
        Some(store[0])
    }
}

/// Moves a finished job into the store of results, which holds at most
/// `max_jobs_in_queue` of them: where the store is full, the oldest result is
/// dropped and its job cleared from the status. Hands back the dropped
/// result.
pub fn collect_finished_job(
    finished_job_queue: &mut VecDeque<JobResult>,
    server_status: &mut ServerStatus,
    finished_job: JobResult,
    max_jobs_in_queue: usize,
) -> (dropped: Option<JobResult>)
    requires
        old(finished_job_queue)@.len() <= max_jobs_in_queue,
        max_jobs_in_queue > 0,
    ensures
        final(finished_job_queue)@ == collected(
            old(finished_job_queue)@,
            finished_job,
            max_jobs_in_queue as int,
        ),
        dropped == evicted(old(finished_job_queue)@, max_jobs_in_queue as int),
        final(server_status)@ == match dropped {
            Some(d) => old(server_status)@.cleared(d.id),
            None => old(server_status)@,
        },
        final(server_status)@.wf(),
        final(finished_job_queue)@.len() <= max_jobs_in_queue,
{
    proof {
        use_type_invariant(&*server_status);
        server_status.inv_is_wf();
    }
    if finished_job_queue.len() < max_jobs_in_queue {
        finished_job_queue.push_back(finished_job);
        None
    } else {
        let dropped = finished_job_queue.pop_front();
        match &dropped {
            Some(d) => {
                server_status.job_cleared(d.id);
            },
            None => {},
        }
        finished_job_queue.push_back(finished_job);
        assert(finished_job_queue@ =~= collected(
            old(finished_job_queue)@,
            finished_job,
            max_jobs_in_queue as int,
        ));
        dropped
    }
}

/// Index of the first result at or after `start` whose job is `id`.
pub open spec fn result_index_from(results: Seq<JobResult>, id: Uuid, start: int) -> Option<int>
    decreases results.len() - start,
{
    if start < 0 || start >= results.len() {
        None
    } else if results[start].id == id {
        Some(start)
    } else {
        result_index_from(results, id, start + 1)
    }
}

/// The stored result of job `id`, if the store holds one.
pub fn find_result(finished_job_queue: &VecDeque<JobResult>, id: Uuid) -> (r: Option<&JobResult>)
    ensures
        match r {
            Some(found) => {
                &&& result_index_from(finished_job_queue@, id, 0) matches Some(i)
                &&& *found == finished_job_queue@[i]
            },
            None => result_index_from(finished_job_queue@, id, 0) is None,
        },
{
    let mut i: usize = 0;
    while i < finished_job_queue.len()
        invariant
            i <= finished_job_queue.len(),
            result_index_from(finished_job_queue@, id, 0) == result_index_from(
                finished_job_queue@,
                id,
                i as int,
            ),
        decreases finished_job_queue.len() - i,
    {
        if finished_job_queue[i].id == id {
            return Some(&finished_job_queue[i]);
        }
        i += 1;
    }
    None
}

/// Answers the query for the result of job `id`: the stored result where the
/// job is finished and its result is stored; else what the server knows of
/// the job. A finished job whose result is not stored is answered as not
/// found.
pub fn get_job_by_id<'a>(
    id: Uuid,
    server_status: &ServerStatus,
    finished_job_queue: &'a VecDeque<JobResult>,
) -> (r: Result<&'a JobResult, JobStatus>)
    ensures
        match r {
            Ok(found) => {
                &&& server_status@.status_of(id) == JobStatus::Finished
                &&& result_index_from(finished_job_queue@, id, 0) matches Some(i)
                &&& *found == finished_job_queue@[i]
            },
            Err(status) => if server_status@.status_of(id) == JobStatus::Finished {
                status == JobStatus::NotFound && result_index_from(finished_job_queue@, id, 0)
                    is None
            } else {
                status == server_status@.status_of(id)
            },
        },
{
    match server_status.job_status(id) {
        JobStatus::Finished => match find_result(finished_job_queue, id) {
            Some(found) => Ok(found),
            None => Err(JobStatus::NotFound),
        },
        status => Err(status),
    }
}

/// The result that came in last, if the store holds any.
pub fn last_job(finished_job_queue: &VecDeque<JobResult>) -> (r: Option<&JobResult>)
    ensures
        match r {
            Some(found) => finished_job_queue@.len() > 0 && *found == finished_job_queue@.last(),
            None => finished_job_queue@.len() == 0,
        },
{
    let n = finished_job_queue.len();
    if n == 0 {
        None
    } else {
        Some(&finished_job_queue[n - 1])
    }
}

/// The store and the status agree: the store holds no job twice and at most
/// `max` of them, and the finished jobs of the status are those in the store.
pub open spec fn settled(status: ServerStatusView, stored: Seq<Uuid>, max: int) -> bool {
    &&& status.wf()
    &&& stored.no_duplicates()
    &&& stored.len() <= max
    &&& stored.to_set() == status.finished
}

/// While the store and the status agree, there are no more finished jobs
/// than the store may hold.
pub proof fn finished_within_capacity(status: ServerStatusView, stored: Seq<Uuid>, max: int)
    requires
        settled(status, stored, max),
    ensures
        status.finished.len() <= max,
{
    stored.unique_seq_to_set();
}

/// When the running job finishes and its result is collected, the store and
/// the status agree again; in between, one more job is finished than the
/// store may hold, at most.
pub proof fn finish_then_collect_settles(
    status: ServerStatusView,
    stored: Seq<Uuid>,
    id: Uuid,
    max: int,
)
    requires
        settled(status, stored, max),
        max > 0,
        status.may_finish(id),
    ensures
        status.finished(id).wf(),
        status.finished(id).finished.len() <= max + 1,
        settled(
            match evicted(stored, max) {
                Some(d) => status.finished(id).cleared(d),
                None => status.finished(id),
            },
            collected(stored, id, max),
            max,
        ),
{
    finished_keeps_wf(status, id);
    finished_within_capacity(status, stored, max);
    let s1 = status.finished(id);
    assert(!stored.contains(id)) by {
        if stored.contains(id) {
            assert(stored.to_set().contains(id));
        }
    }
    let q2 = collected(stored, id, max);
    if stored.len() < max {
        assert(q2.to_set() =~= s1.finished) by {
            assert forall|x: Uuid| q2.to_set().contains(x) <==> s1.finished.contains(x) by {
                if q2.contains(x) {
                    let k = choose|k: int| 0 <= k < q2.len() && q2[k] == x;
                    if k < stored.len() {
                        assert(stored.contains(x));
                    }
                }
                if stored.contains(x) {
                    let k = choose|k: int| 0 <= k < stored.len() && stored[k] == x;
                    assert(q2[k] == x);
                }
                assert(q2[stored.len() as int] == id);
            }
        }
        assert(q2.no_duplicates()) by {
            assert forall|i: int, j: int| 0 <= i < q2.len() && 0 <= j < q2.len() && i != j implies q2[i]
                != q2[j] by {
                if i == stored.len() {
                    assert(stored.contains(q2[j]));
                } else if j == stored.len() {
                    assert(stored.contains(q2[i]));
                }
            }
        }
    } else {
        let d = stored[0];
        assert(stored.contains(d));
        let s2 = s1.cleared(d);
        cleared_keeps_wf(s1, d);
        let rest = stored.drop_first();
        assert forall|k: int| 0 <= k < rest.len() implies rest[k] == stored[k + 1] by {}
        assert(q2.no_duplicates()) by {
            assert forall|i: int, j: int| 0 <= i < q2.len() && 0 <= j < q2.len() && i != j implies q2[i]
                != q2[j] by {
                if i == rest.len() {
                    assert(q2[j] == stored[j + 1]);
                    assert(stored.contains(q2[j]));
                } else if j == rest.len() {
                    assert(q2[i] == stored[i + 1]);
                    assert(stored.contains(q2[i]));
                } else {
                    assert(q2[i] == stored[i + 1]);
                    assert(q2[j] == stored[j + 1]);
                }
            }
        }
        assert(q2.to_set() =~= s2.finished) by {
            assert forall|x: Uuid| q2.to_set().contains(x) <==> s2.finished.contains(x) by {
                assert(q2[rest.len() as int] == id);
                if q2.contains(x) {
                    let k = choose|k: int| 0 <= k < q2.len() && q2[k] == x;
                    if k < rest.len() {
                        assert(q2[k] == stored[k + 1]);
                        assert(stored.contains(x));
                        assert(stored.to_set().contains(x));
                    }
                }
                if s2.finished.contains(x) && x != id {
                    assert(stored.to_set().contains(x));
                    let k = choose|k: int| 0 <= k < stored.len() && stored[k] == x;
                    assert(k != 0);
                    assert(q2[k - 1] == x);
                }
            }
        }
    }
}

/// When the result of the running job is collected before the job is marked
/// as finished, the store and the status agree in the end as well, and at no
/// time are more jobs finished than the store may hold.
pub proof fn collect_then_finish_settles(
    status: ServerStatusView,
    stored: Seq<Uuid>,
    id: Uuid,
    max: int,
)
    requires
        settled(status, stored, max),
        max > 0,
        status.may_finish(id),
    ensures
        match evicted(stored, max) {
            Some(d) => status.cleared(d).finished.len() <= max && settled(
                status.cleared(d).finished(id),
                collected(stored, id, max),
                max,
            ),
            None => settled(status.finished(id), collected(stored, id, max), max),
        },
{
    finish_then_collect_settles(status, stored, id, max);
    finished_within_capacity(status, stored, max);
    match evicted(stored, max) {
        Some(d) => {
            assert(stored.contains(d));
            assert(stored.to_set().contains(d));
            assert(d != id);
            cleared_keeps_wf(status, d);
            assert(status.cleared(d).finished(id).finished =~= status.finished(id).cleared(
                d,
            ).finished);
            assert(status.cleared(d).finished(id) == status.finished(id).cleared(d));
            assert(status.finished.remove(d).len() <= status.finished.len());
        },
        None => {},
    }
}

/// A job that is admitted while another is still known to the server
/// has another identifier: what is submitted twice gets two identifiers.
pub proof fn admitted_id_is_new(status: ServerStatusView, known: Uuid, admitted: Uuid)
    requires
        status.wf(),
        status.status_of(known) != JobStatus::NotFound,
        status.may_enqueue(admitted),
    ensures
        known != admitted,
{
}

/// Two jobs admitted one after the other have different identifiers.
pub proof fn resubmission_gets_new_id(status: ServerStatusView, first: Uuid, second: Uuid)
    requires
        status.wf(),
        status.may_enqueue(first),
        status.enqueued(first).may_enqueue(second),
    ensures
        first != second,
{
    enqueued_keeps_wf(status, first);
}

/// The status code with which a refused submission is answered.
pub open spec fn refusal_code(error: PostJobError) -> u16 {
    match error {
        PostJobError::InvalidJob(_) => 400,
        PostJobError::TooManyJobs => 425,
        PostJobError::InternalQueueClosed => 500,
        PostJobError::IdInUse => 425,
    }
}

impl PostJobError {
    /// The status code with which the refusal is answered.
    pub fn status_code(&self) -> (r: u16)
        ensures
            r == refusal_code(*self),
    {
        match self {
            PostJobError::InvalidJob(_) => 400,
            PostJobError::TooManyJobs => 425,
            PostJobError::InternalQueueClosed => 500,
            PostJobError::IdInUse => 425,
        }
    }
}

/// The status code with which a query for the result of a job is answered,
/// given what the server knows of the job: found, too early, or not found.
pub open spec fn query_code(status: JobStatus) -> u16 {
    match status {
        JobStatus::Finished => 302,
        JobStatus::InQueue | JobStatus::Running => 425,
        JobStatus::NotFound => 404,
    }
}

impl JobStatus {
    /// The status code with which a query for the result of a job in this
    /// status is answered.
    pub fn status_code(&self) -> (r: u16)
        ensures
            r == query_code(*self),
    {
        match self {
            JobStatus::Finished => 302,
            JobStatus::InQueue | JobStatus::Running => 425,
            JobStatus::NotFound => 404,
        }
    }
}

/// The headers that let pages of any origin use the server.
#[derive(Debug, Clone, Copy, PartialEq, Eq, Structural)]
pub struct CORS;

/// A header of an answer: its name and its value.
#[derive(Debug, Clone, Copy, PartialEq, Eq)]
pub struct HeaderLine {
    pub name: &'static str,
    pub value: &'static str,
}

impl CORS {
    /// The headers that are attached to every answer: any origin, the
    /// methods of the interface, any header, and credentials.
    pub fn headers() -> (r: Vec<HeaderLine>)
        ensures
            r@.len() == 4,
            r@[0].name@ == "Access-Control-Allow-Origin"@ && r@[0].value@ == "*"@,
            r@[1].name@ == "Access-Control-Allow-Methods"@ && r@[1].value@
                == "POST, GET, PATCH, OPTIONS"@,
            r@[2].name@ == "Access-Control-Allow-Headers"@ && r@[2].value@ == "*"@,
            r@[3].name@ == "Access-Control-Allow-Credentials"@ && r@[3].value@ == "true"@,
    {
        let mut headers: Vec<HeaderLine> = Vec::new();
        headers.push(HeaderLine { name: "Access-Control-Allow-Origin", value: "*" });
        headers.push(
            HeaderLine { name: "Access-Control-Allow-Methods", value: "POST, GET, PATCH, OPTIONS" },
        );
        headers.push(HeaderLine { name: "Access-Control-Allow-Headers", value: "*" });
        headers.push(HeaderLine { name: "Access-Control-Allow-Credentials", value: "true" });
        headers
    }
}

} // verus!
