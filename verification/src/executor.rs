//! What the executor decides for a job: when it starts, which runs it
//! consists of, where each outcome is stored, and when it is finished.

use crate::encoding::{base64_encoding, encode_base64};
use crate::ident::{ProbeSerial, TargetName, Uuid};
use crate::job::{
    empty_job_result, run_index_from, run_index_is_first, task_index_from, task_index_is_first, Job, JobResult, JobResultView, JobView,
    RunResultDetails, RunResultDetailsView, RunResultView, TaskResultView, TaskView,
};
use crate::model::{views, views_of_push};
use crate::settings::{config_of, find_config, ProbeConfig, ProbeConfigView, Timeout};
use crate::status::{finished_keeps_wf, started_keeps_wf, JobStatus, ServerStatus};
use vstd::prelude::*;

verus! {

/// The time that the runs of a job are given: the timeout of the job, but no
/// more than the server allows.
pub fn effective_timeout(job_timeout_secs: u64, max_target_timeout: Timeout) -> (r: u64)
    ensures
        r == if job_timeout_secs <= max_target_timeout.0 {
            job_timeout_secs
        } else {
            max_target_timeout.0 as u64
        },
{
    if job_timeout_secs <= max_target_timeout.0 as u64 {
        job_timeout_secs
    } else {
        max_target_timeout.0 as u64
    }
}

/// Mathematical model of a [`RunPlan`].
pub struct RunPlanView {
    pub task_id: Uuid,
    pub task_index: nat,
    pub probe_serial: Seq<char>,
    pub target_name: Seq<char>,
    pub probe_speed_khz: Option<u32>,
}

/// One run that the executor hands to a worker.
#[derive(Debug, Clone)]
pub struct RunPlan {
    /// Identifier of the task to which the run belongs.
    pub task_id: Uuid,
    /// Place of that task in the job; the worker runs the binary of this
    /// task.
    pub task_index: usize,
    /// Serial of the probe to run through.
    pub probe_serial: ProbeSerial,
    /// Chip name of the target behind the probe.
    pub target_name: TargetName,
    /// Clock speed to set on the probe, where one is configured.
    pub probe_speed_khz: Option<u32>,
}

impl View for RunPlan {
    type V = RunPlanView;

    open spec fn view(&self) -> RunPlanView {
        RunPlanView {
            task_id: self.task_id,
            task_index: self.task_index as nat,
            probe_serial: self.probe_serial@,
            target_name: self.target_name@,
            probe_speed_khz: self.probe_speed_khz,
        }
    }
}

/// The clock speed configured for the probe with serial `serial`, if any.
pub open spec fn speed_of(configs: Seq<ProbeConfigView>, serial: Seq<char>) -> Option<u32> {
    match config_of(configs, serial) {
        Some(info) => info.probe_speed_khz,
        None => None,
    }
}

/// The run of target `k` of task `t`.
pub open spec fn planned_run(task: TaskView, t: nat, k: int, configs: Seq<ProbeConfigView>) -> RunPlanView {
    RunPlanView {
        task_id: task.id,
        task_index: t,
        probe_serial: task.targets[k].probe_serial,
        target_name: task.targets[k].target_name,
        probe_speed_khz: speed_of(configs, task.targets[k].probe_serial),
    }
}

/// The runs of task `t`: one for each of its targets, in order.
pub open spec fn task_runs(task: TaskView, t: nat, configs: Seq<ProbeConfigView>) -> Seq<RunPlanView> {
    Seq::new(task.targets.len(), |k: int| planned_run(task, t, k, configs))
}

/// The runs of the first `n` tasks of a job.
pub open spec fn job_runs_upto(job: JobView, configs: Seq<ProbeConfigView>, n: nat) -> Seq<
    RunPlanView,
>
    decreases n,
{
    if n == 0 {
        Seq::empty()
    } else {
        job_runs_upto(job, configs, (n - 1) as nat) + task_runs(
            job.tasks[n - 1],
            (n - 1) as nat,
            configs,
        )
    }
}

/// The runs of a job: those of its tasks, in order.
pub open spec fn job_runs(job: JobView, configs: Seq<ProbeConfigView>) -> Seq<RunPlanView> {
    job_runs_upto(job, configs, job.tasks.len())
}

/// Number of targets of the first `n` tasks of a job.
pub open spec fn targets_upto(job: JobView, n: nat) -> nat
    decreases n,
{
    if n == 0 {
        0
    } else {
        targets_upto(job, (n - 1) as nat) + job.tasks[n - 1].targets.len()
    }
}

/// A job has as many runs as its tasks have targets, all told: that many
/// workers meet at the barrier.
pub proof fn one_run_for_each_target(job: JobView, configs: Seq<ProbeConfigView>, n: nat)
    ensures
        job_runs_upto(job, configs, n).len() == targets_upto(job, n),
    decreases n,
{
    if n > 0 {
        one_run_for_each_target(job, configs, (n - 1) as nat);
    }
}

/// Lists the runs of `job`: one for each target of each task, in order, each
/// with the clock speed configured for its probe.
pub fn plan_runs(job: &Job, probe_configs: &[ProbeConfig]) -> (r: Vec<RunPlan>)
    ensures
        views(r@) == job_runs(job@, views(probe_configs@)),
        r@.len() == targets_upto(job@, job@.tasks.len()),
{
    let ghost configs = views(probe_configs@);
    let mut runs: Vec<RunPlan> = Vec::new();
    proof {
        assert(views(runs@) =~= Seq::<RunPlanView>::empty());
    }
    let mut t: usize = 0;
    while t < job.tasks.len()
        invariant
            t <= job.tasks.len(),
            configs == views(probe_configs@),
            views(runs@) == job_runs_upto(job@, configs, t as nat),
        decreases job.tasks.len() - t,
    {
        let task = &job.tasks[t];
        let ghost before = views(runs@);
        proof {
            assert(job@.tasks[t as int] == task@);
        }
        let mut k: usize = 0;
        while k < task.targets.len()
            invariant
                k <= task.targets.len(),
                t < job.tasks.len(),
                configs == views(probe_configs@),
                views(runs@) == before + task_runs(task@, t as nat, configs).take(k as int),
            decreases task.targets.len() - k,
        {
            let target = &task.targets[k];
            let probe_speed_khz = match find_config(probe_configs, &target.probe_serial) {
                Some(info) => info.probe_speed_khz,
                None => None,
            };
            let run = RunPlan {
                task_id: task.id,
                task_index: t,
                probe_serial: target.probe_serial.clone(),
                target_name: target.target_name.clone(),
                probe_speed_khz,
            };
            proof {
                assert(task@.targets[k as int] == target@);
                views_of_push(runs@, run);
                assert((before + task_runs(task@, t as nat, configs).take(k as int)).push(run@)
                    =~= before + task_runs(task@, t as nat, configs).take(k as int + 1));
            }
            runs.push(run);
            k += 1;
        }
        proof {
            assert(task_runs(task@, t as nat, configs).take(k as int) =~= task_runs(
                task@,
                t as nat,
                configs,
            ));
        }
        t += 1;
    }
    proof {
        one_run_for_each_target(job@, configs, job@.tasks.len());
    }
    runs
}

/// Starts `job` if it heads the queue and nothing runs: the status knows it
/// as running, and its results are handed out with no run reported. Else
/// nothing changes and nothing is handed out.
pub fn start_job(server_status: &mut ServerStatus, job: &Job) -> (r: Option<JobResult>)
    ensures
        final(server_status)@.wf(),
        match r {
            Some(result) => {
                &&& old(server_status)@.may_start(job.id)
                &&& final(server_status)@ == old(server_status)@.started()
                &&& final(server_status)@.status_of(job.id) == JobStatus::Running
                &&& result@ == empty_job_result(job@)
            },
            None => {
                &&& !old(server_status)@.may_start(job.id)
                &&& final(server_status)@ == old(server_status)@
            },
        },
{
    proof {
        use_type_invariant(&*server_status);
        server_status.inv_is_wf();
    }
    let heads = match server_status.next_in_queue() {
        Some(head) => head == job.id,
        None => false,
    };
    if heads && server_status.current_job().is_none() {
        proof {
            started_keeps_wf(server_status@, job.id);
        }
        server_status.job_started(job.id);
        Some(JobResult::empty_from_job(job))
    } else {
        None
    }
}

/// Marks `id` as finished if it is the job that runs; else nothing changes.
pub fn finish_job(server_status: &mut ServerStatus, id: Uuid) -> (r: bool)
    ensures
        final(server_status)@.wf(),
        r == old(server_status)@.may_finish(id),
        r ==> final(server_status)@ == old(server_status)@.finished(id),
        r ==> final(server_status)@.status_of(id) == JobStatus::Finished,
        !r ==> final(server_status)@ == old(server_status)@,
{
    proof {
        use_type_invariant(&*server_status);
        server_status.inv_is_wf();
    }
    let runs = match server_status.current_job() {
        Some(current) => current == id,
        None => false,
    };
    if runs {
        proof {
            finished_keeps_wf(server_status@, id);
        }
        server_status.job_finished(id);
    }
    runs
}

/// The results after the run of task `task_id` on the probe with serial
/// `serial` was reported: the first task result of that task, and in it the
/// first run on that probe, holds the outcome. Where there is no such place,
/// the results stay as they are.
pub open spec fn recorded(
    results: JobResultView,
    task_id: Uuid,
    serial: Seq<char>,
    outcome: RunResultDetailsView,
) -> JobResultView {
    match task_index_from(results.tasks, task_id, 0) {
        Some(t) => match run_index_from(results.tasks[t].runs, serial, 0) {
            Some(k) => JobResultView {
                tasks: results.tasks.update(
                    t,
                    TaskResultView {
                        runs: results.tasks[t].runs.update(
                            k,
                            RunResultView { result: outcome, ..results.tasks[t].runs[k] },
                        ),
                        ..results.tasks[t]
                    },
                ),
                ..results
            },
            None => results,
        },
        None => results,
    }
}

/// Whether the results hold a place for the run of task `task_id` on the
/// probe with serial `serial`.
pub open spec fn has_place(results: JobResultView, task_id: Uuid, serial: Seq<char>) -> bool {
    match task_index_from(results.tasks, task_id, 0) {
        Some(t) => run_index_from(results.tasks[t].runs, serial, 0) is Some,
        None => false,
    }
}

/// Stores the outcome of a run in its place among the results, and tells
/// whether there was such a place.
pub fn record_run(
    job_result: &mut JobResult,
    task_id: Uuid,
    probe_serial: &ProbeSerial,
    details: RunResultDetails,
) -> (r: bool)
    ensures
        r == has_place(old(job_result)@, task_id, probe_serial@),
        final(job_result)@ == recorded(old(job_result)@, task_id, probe_serial@, details@),
{
    let t = match job_result.task_index_by_id(task_id) {
        Some(t) => t,
        None => {
            return false;
        },
    };
    let k = match job_result.tasks[t].run_index_by_probe_serial(probe_serial) {
        Some(k) => k,
        None => {
            return false;
        },
    };
    proof {
        assert(job_result@.tasks[t as int] == job_result.tasks@[t as int]@);
        assert(job_result@.tasks[t as int].runs[k as int] == job_result.tasks@[t as int].runs@[k as int]@);
    }
    job_result.tasks[t].runs[k].result = details;
    proof {
        let expected = recorded(old(job_result)@, task_id, probe_serial@, details@);
        assert(job_result@.tasks[t as int].runs =~= expected.tasks[t as int].runs);
        assert(job_result@.tasks =~= expected.tasks);
        assert(job_result@.logic_analyzer_capture == expected.logic_analyzer_capture);
    }
    true
}

/// Attaches the capture of a logic analyzer to the results, as base64 text.
pub fn attach_capture(job_result: &mut JobResult, data: &[u8])
    ensures
        final(job_result)@ == (JobResultView {
            logic_analyzer_capture: old(job_result)@.logic_analyzer_capture.push(
                base64_encoding(data@),
            ),
            ..old(job_result)@
        }),
{
    let text = encode_base64(data);
    proof {
        views_of_push(job_result.logic_analyzer_capture@, text);
    }
    job_result.logic_analyzer_capture.push(text);
}

/// The results belong to the job: a task result for each task and a run for
/// each target, under the same identifiers and in the same order.
pub open spec fn results_match(job: JobView, results: JobResultView) -> bool {
    &&& results.id == job.id
    &&& results.tasks.len() == job.tasks.len()
    &&& forall|t: int|
        0 <= t < job.tasks.len() ==> {
            &&& (#[trigger] results.tasks[t]).id == job.tasks[t].id
            &&& results.tasks[t].runs.len() == job.tasks[t].targets.len()
            &&& forall|k: int|
                0 <= k < job.tasks[t].targets.len() ==> (#[trigger] results.tasks[t].runs[k]).target
                    == job.tasks[t].targets[k]
        }
}

/// The results that a job starts with belong to it.
pub proof fn empty_results_match(job: JobView)
    ensures
        results_match(job, empty_job_result(job)),
{
}

/// Results that belong to a job still belong to it after a run was reported
/// and after a capture was attached: only outcomes and captures change.
pub proof fn results_keep_matching(
    job: JobView,
    results: JobResultView,
    task_id: Uuid,
    serial: Seq<char>,
    outcome: RunResultDetailsView,
    capture: Seq<char>,
)
    requires
        results_match(job, results),
    ensures
        results_match(job, recorded(results, task_id, serial, outcome)),
        results_match(
            job,
            JobResultView {
                logic_analyzer_capture: results.logic_analyzer_capture.push(capture),
                ..results
            },
        ),
{
    let after = recorded(results, task_id, serial, outcome);
    task_index_is_first(results.tasks, task_id, 0);
    if let Some(t) = task_index_from(results.tasks, task_id, 0) {
        run_index_is_first(results.tasks[t].runs, serial, 0);
    }
    assert forall|t: int| 0 <= t < job.tasks.len() implies {
        &&& (#[trigger] after.tasks[t]).id == job.tasks[t].id
        &&& after.tasks[t].runs.len() == job.tasks[t].targets.len()
        &&& forall|k: int|
            0 <= k < job.tasks[t].targets.len() ==> (#[trigger] after.tasks[t].runs[k]).target
                == job.tasks[t].targets[k]
    } by {
        assert(results.tasks[t].id == job.tasks[t].id);
        assert forall|k: int| 0 <= k < job.tasks[t].targets.len() implies (
        #[trigger] after.tasks[t].runs[k]).target == job.tasks[t].targets[k] by {
            assert(results.tasks[t].runs[k].target == job.tasks[t].targets[k]);
        }
    }
}

/// In results that belong to a job whose tasks have different identifiers
/// and whose targets have different probe serials within a task, the run of
/// target `k` of task `t` has its place, and the search finds exactly that
/// place.
pub proof fn every_run_has_its_place(job: JobView, results: JobResultView, t: int, k: int)
    requires
        results_match(job, results),
        0 <= t < job.tasks.len(),
        0 <= k < job.tasks[t].targets.len(),
        forall|i: int, j: int|
            0 <= i < j < job.tasks.len() ==> (#[trigger] job.tasks[i]).id != (
            #[trigger] job.tasks[j]).id,
        forall|i: int, j: int|
            0 <= i < j < job.tasks[t].targets.len() ==> (
            #[trigger] job.tasks[t].targets[i]).probe_serial != (
            #[trigger] job.tasks[t].targets[j]).probe_serial,
    ensures
        task_index_from(results.tasks, job.tasks[t].id, 0) == Some(t),
        run_index_from(results.tasks[t].runs, job.tasks[t].targets[k].probe_serial, 0) == Some(k),
        has_place(results, job.tasks[t].id, job.tasks[t].targets[k].probe_serial),
{
    let id = job.tasks[t].id;
    let serial = job.tasks[t].targets[k].probe_serial;
    task_index_is_first(results.tasks, id, 0);
    assert(results.tasks[t].id == id);
    match task_index_from(results.tasks, id, 0) {
        Some(found) => {
            if found < t {
                assert(results.tasks[found].id == job.tasks[found].id);
                assert(job.tasks[found].id != job.tasks[t].id);
            }
        },
        None => {},
    }
    let runs = results.tasks[t].runs;
    run_index_is_first(runs, serial, 0);
    assert(runs[k].target == job.tasks[t].targets[k]);
    match run_index_from(runs, serial, 0) {
        Some(found) => {
            if found < k {
                assert(runs[found].target == job.tasks[t].targets[found]);
                assert(job.tasks[t].targets[found].probe_serial != job.tasks[t].targets[k].probe_serial);
            }
        },
        None => {},
    }
}

/// Where the execution of a job stands.
#[derive(Debug, Clone, Copy, PartialEq, Eq, Structural)]
pub enum ExecutionPhase {
    /// The workers of the runs are to be started.
    Spawning,
    /// The captures of the logic analyzers are to be started.
    Capturing,
    /// The executor is to signal the barrier, which lets the runs go on to
    /// drain their logs.
    AtBarrier,
    /// The runs are awaited, one after the other.
    Collecting,
    /// The captures are to be stopped.
    Stopping,
    /// The results are to be sent on.
    Sending,
}

/// What the executor is to do next for a job.
#[derive(Debug, Clone, Copy, PartialEq, Eq, Structural)]
pub enum JobAction {
    /// Start a worker for each run of the plan.
    SpawnRuns,
    /// Start a capture on each logic analyzer; a capture that does not
    /// start is passed over.
    StartCaptures,
    /// Signal the barrier and wait for it, off the asynchronous runtime.
    ReleaseBarrier,
    /// Await the worker of the run with this place in the plan.
    AwaitRun { index: usize },
    /// Stop the captures and hand in their data.
    StopCaptures,
    /// Send the results on, and tell the execution whether they were
    /// delivered.
    SendResult,
}

/// Mathematical model of a [`JobEvent`].
pub enum JobEventView {
    Done,
    RunEnded(RunResultDetailsView),
    Captured(Seq<Seq<u8>>),
}

/// What came of an action of the executor.
#[derive(Debug)]
pub enum JobEvent {
    /// The action was carried out.
    Done,
    /// The awaited run ended.
    RunEnded(RunResultDetails),
    /// The captures were stopped; the data of those that gave any.
    Captured(Vec<Vec<u8>>),
}

/// The octets of each capture of a list.
pub open spec fn capture_views(captures: Seq<Vec<u8>>) -> Seq<Seq<u8>> {
    Seq::new(captures.len(), |i: int| captures[i]@)
}

impl View for JobEvent {
    type V = JobEventView;

    open spec fn view(&self) -> JobEventView {
        match self {
            JobEvent::Done => JobEventView::Done,
            JobEvent::RunEnded(details) => JobEventView::RunEnded(details@),
            JobEvent::Captured(captures) => JobEventView::Captured(capture_views(captures@)),
        }
    }
}

/// Mathematical model of an [`Execution`].
pub struct ExecutionView {
    pub phase: ExecutionPhase,
    pub results: JobResultView,
    pub runs: Seq<RunPlanView>,
    pub reported: nat,
    pub unplaced: nat,
}

/// The execution of one job: its plan, its results so far, where it
/// stands, and how many runs have ended for whose outcome the results have
/// no place.
#[derive(Debug)]
pub struct Execution {
    phase: ExecutionPhase,
    results: JobResult,
    runs: Vec<RunPlan>,
    reported: usize,
    unplaced: usize,
}

impl View for Execution {
    type V = ExecutionView;

    closed spec fn view(&self) -> ExecutionView {
        ExecutionView {
            phase: self.phase,
            results: self.results@,
            runs: views(self.runs@),
            reported: self.reported as nat,
            unplaced: self.unplaced as nat,
        }
    }
}

/// The results with the base64 text of each of `captures` attached, in order.
pub open spec fn with_captures(results: JobResultView, captures: Seq<Seq<u8>>) -> JobResultView
    decreases captures.len(),
{
    if captures.len() == 0 {
        results
    } else {
        let head = with_captures(results, captures.drop_last());
        JobResultView {
            logic_analyzer_capture: head.logic_analyzer_capture.push(
                base64_encoding(captures.last()),
            ),
            ..head
        }
    }
}

/// What the executor is to do in a phase.
pub open spec fn job_action(execution: ExecutionView) -> JobAction {
    match execution.phase {
        ExecutionPhase::Spawning => JobAction::SpawnRuns,
        ExecutionPhase::Capturing => JobAction::StartCaptures,
        ExecutionPhase::AtBarrier => JobAction::ReleaseBarrier,
        ExecutionPhase::Collecting => JobAction::AwaitRun { index: execution.reported as usize },
        ExecutionPhase::Stopping => JobAction::StopCaptures,
        ExecutionPhase::Sending => JobAction::SendResult,
    }
}

/// The execution after an event: the workers are started, then the
/// captures, then the barrier is signalled; the runs are awaited in the
/// order of the plan and each outcome is stored in its place, or counted
/// where the results have no place for it; when all have
/// ended the captures are stopped and attached, and the results are ready
/// to be sent. An event that does not answer the action of the phase changes
/// nothing.
pub open spec fn advanced(execution: ExecutionView, event: JobEventView) -> ExecutionView {
    match (execution.phase, event) {
        (ExecutionPhase::Spawning, JobEventView::Done) => ExecutionView {
            phase: ExecutionPhase::Capturing,
            ..execution
        },
        (ExecutionPhase::Capturing, JobEventView::Done) => ExecutionView {
            phase: ExecutionPhase::AtBarrier,
            ..execution
        },
        (ExecutionPhase::AtBarrier, JobEventView::Done) => ExecutionView {
            phase: if execution.runs.len() == 0 {
                ExecutionPhase::Stopping
            } else {
                ExecutionPhase::Collecting
            },
            ..execution
        },
        (ExecutionPhase::Collecting, JobEventView::RunEnded(details)) => {
            let run = execution.runs[execution.reported as int];
            ExecutionView {
                phase: if execution.reported + 1 >= execution.runs.len() {
                    ExecutionPhase::Stopping
                } else {
                    ExecutionPhase::Collecting
                },
                results: recorded(execution.results, run.task_id, run.probe_serial, details),
                reported: execution.reported + 1,
                unplaced: if has_place(execution.results, run.task_id, run.probe_serial) {
                    execution.unplaced
                } else {
                    execution.unplaced + 1
                },
                ..execution
            }
        },
        (ExecutionPhase::Stopping, JobEventView::Captured(captures)) => ExecutionView {
            phase: ExecutionPhase::Sending,
            results: with_captures(execution.results, captures),
            ..execution
        },
        _ => execution,
    }
}

/// While runs are awaited, the one awaited is a run of the plan.
pub open spec fn execution_wf(execution: ExecutionView) -> bool {
    &&& execution.reported <= execution.runs.len()
    &&& execution.unplaced <= execution.reported
    &&& execution.phase == ExecutionPhase::Collecting ==> execution.reported
        < execution.runs.len()
    &&& execution.phase == ExecutionPhase::Stopping || execution.phase == ExecutionPhase::Sending
        ==> execution.reported == execution.runs.len()
    &&& execution.phase == ExecutionPhase::Spawning || execution.phase
        == ExecutionPhase::Capturing || execution.phase == ExecutionPhase::AtBarrier
        ==> execution.reported == 0
}

impl Execution {
    /// Every execution that exists is well formed.
    #[verifier::type_invariant]
    pub closed spec fn inv(self) -> bool {
        execution_wf(self@)
    }

    /// What the invariant of the type says of the model.
    pub proof fn inv_is_wf(self)
        requires
            self.inv(),
        ensures
            execution_wf(self@),
    {
    }

    /// Begins the execution of `job` if it heads the queue and nothing runs:
    /// the status knows the job as running, the runs are planned and no run
    /// has reported. Else nothing changes and nothing begins.
    pub fn begin(server_status: &mut ServerStatus, job: &Job, probe_configs: &[ProbeConfig]) -> (r:
        Option<Execution>)
        ensures
            final(server_status)@.wf(),
            match r {
                Some(execution) => {
                    &&& old(server_status)@.may_start(job.id)
                    &&& final(server_status)@ == old(server_status)@.started()
                    &&& execution@ == (ExecutionView {
                        phase: ExecutionPhase::Spawning,
                        results: empty_job_result(job@),
                        runs: job_runs(job@, views(probe_configs@)),
                        reported: 0,
                        unplaced: 0,
                    })
                },
                None => {
                    &&& !old(server_status)@.may_start(job.id)
                    &&& final(server_status)@ == old(server_status)@
                },
            },
    {
        match start_job(server_status, job) {
            Some(results) => Some(
                Execution {
                    phase: ExecutionPhase::Spawning,
                    results,
                    runs: plan_runs(job, probe_configs),
                    reported: 0,
                    unplaced: 0,
                },
            ),
            None => None,
        }
    }

    /// The runs of the job, in the order in which they are awaited.
    pub fn runs(&self) -> (r: &Vec<RunPlan>)
        ensures
            views(r@) == self@.runs,
    {
        &self.runs
    }

    /// Number of runs that have ended without a place among the results for
    /// their outcome. None in the execution of a job as admission makes it.
    pub fn unplaced(&self) -> (r: usize)
        ensures
            r == self@.unplaced,
    {
        self.unplaced
    }

    /// The results as they stand.
    pub fn results(&self) -> (r: &JobResult)
        ensures
            r@ == self@.results,
    {
        &self.results
    }

    /// What the executor is to do next.
    pub fn action(&self) -> (r: JobAction)
        ensures
            r == job_action(self@),
    {
        match self.phase {
            ExecutionPhase::Spawning => JobAction::SpawnRuns,
            ExecutionPhase::Capturing => JobAction::StartCaptures,
            ExecutionPhase::AtBarrier => JobAction::ReleaseBarrier,
            ExecutionPhase::Collecting => JobAction::AwaitRun { index: self.reported },
            ExecutionPhase::Stopping => JobAction::StopCaptures,
            ExecutionPhase::Sending => JobAction::SendResult,
        }
    }

    /// Takes what came of the action that was ordered last, and orders the
    /// next.
    pub fn advance(self, event: JobEvent) -> (r: Execution)
        ensures
            r@ == advanced(self@, event@),
    {
        proof {
            use_type_invariant(&self);
        }
        let Execution { phase, results, runs, reported, unplaced } = self;
        let mut results = results;
        match (phase, event) {
            (ExecutionPhase::Spawning, JobEvent::Done) => Execution {
                phase: ExecutionPhase::Capturing,
                results,
                runs,
                reported,
                unplaced,
            },
            (ExecutionPhase::Capturing, JobEvent::Done) => Execution {
                phase: ExecutionPhase::AtBarrier,
                results,
                runs,
                reported,
                unplaced,
            },
            (ExecutionPhase::AtBarrier, JobEvent::Done) => {
                let phase = if runs.len() == 0 {
                    ExecutionPhase::Stopping
                } else {
                    ExecutionPhase::Collecting
                };
                Execution { phase, results, runs, reported, unplaced }
            },
            (ExecutionPhase::Collecting, JobEvent::RunEnded(details)) => {
                let planned = runs.len();
                assert(reported < planned);
                assert(views(runs@)[reported as int] == runs@[reported as int]@);
                let placed = record_run(
                    &mut results,
                    runs[reported].task_id,
                    &runs[reported].probe_serial,
                    details,
                );
                let unplaced = if placed {
                    unplaced
                } else {
                    unplaced + 1
                };
                let phase = if reported + 1 >= planned {
                    ExecutionPhase::Stopping
                } else {
                    ExecutionPhase::Collecting
                };
                Execution { phase, results, runs, reported: reported + 1, unplaced }
            },
            (ExecutionPhase::Stopping, JobEvent::Captured(captures)) => {
                let ghost before = results@;
                let mut i: usize = 0;
                while i < captures.len()
                    invariant
                        i <= captures.len(),
                        results@ == with_captures(before, capture_views(captures@).take(i as int)),
                    decreases captures.len() - i,
                {
                    attach_capture(&mut results, captures[i].as_slice());
                    proof {
                        let all = capture_views(captures@);
                        assert(all.take(i as int + 1).drop_last() =~= all.take(i as int));
                        assert(all.take(i as int + 1).last() == captures@[i as int]@);
                    }
                    i += 1;
                }
                proof {
                    let all = capture_views(captures@);
                    assert(all.take(captures@.len() as int) =~= all);
                }
                Execution { phase: ExecutionPhase::Sending, results, runs, reported, unplaced }
            },
            (phase, _) => Execution { phase, results, runs, reported, unplaced },
        }
    }

    /// Ends the execution once it is known whether the results were
    /// delivered: the job of results that were delivered is marked as
    /// finished, if it is the job that runs; else the status stays as it was.
    /// Tells whether the job was marked.
    pub fn sent(self, server_status: &mut ServerStatus, delivered: bool) -> (r: bool)
        ensures
            final(server_status)@.wf(),
            r == (delivered && self@.phase == ExecutionPhase::Sending && old(
                server_status,
            )@.may_finish(self@.results.id)),
            r ==> final(server_status)@ == old(server_status)@.finished(self@.results.id),
            !r ==> final(server_status)@ == old(server_status)@,
    {
        let sending = match self.phase {
            ExecutionPhase::Sending => true,
            _ => false,
        };
        if delivered && sending {
            finish_job(server_status, self.results.id)
        } else {
            proof {
                use_type_invariant(&*server_status);
                server_status.inv_is_wf();
            }
            false
        }
    }
}

/// The captures are running whenever a run may drain its log: the barrier is
/// signalled only after the captures were started, and the captures are
/// stopped only after every run has ended.
pub proof fn captures_span_the_runs(execution: ExecutionView, event: JobEventView)
    requires
        execution_wf(execution),
    ensures
        execution_wf(advanced(execution, event)),
        advanced(execution, event).phase == ExecutionPhase::AtBarrier ==> execution.phase
            == ExecutionPhase::Capturing || execution.phase == ExecutionPhase::AtBarrier,
        job_action(advanced(execution, event)) is StopCaptures ==> advanced(
            execution,
            event,
        ).reported == execution.runs.len(),
        advanced(execution, event).phase == ExecutionPhase::Collecting ==> execution.phase
            == ExecutionPhase::AtBarrier || execution.phase == ExecutionPhase::Collecting,
{
}

/// Results that differ only in outcomes and captures have the same places:
/// the same tasks under the same identifiers, with runs on the same targets.
pub open spec fn same_places(a: JobResultView, b: JobResultView) -> bool {
    &&& a.id == b.id
    &&& a.tasks.len() == b.tasks.len()
    &&& forall|t: int|
        0 <= t < a.tasks.len() ==> {
            &&& (#[trigger] a.tasks[t]).id == b.tasks[t].id
            &&& a.tasks[t].runs.len() == b.tasks[t].runs.len()
            &&& forall|k: int|
                0 <= k < a.tasks[t].runs.len() ==> (#[trigger] a.tasks[t].runs[k]).target
                    == b.tasks[t].runs[k].target
        }
}

proof fn same_task_index(a: Seq<TaskResultView>, b: Seq<TaskResultView>, id: Uuid, start: int)
    requires
        a.len() == b.len(),
        forall|t: int| 0 <= t < a.len() ==> (#[trigger] a[t]).id == b[t].id,
    ensures
        task_index_from(a, id, start) == task_index_from(b, id, start),
    decreases a.len() - start,
{
    if 0 <= start < a.len() {
        assert(a[start].id == b[start].id);
        same_task_index(a, b, id, start + 1);
    }
}

proof fn same_run_index(a: Seq<RunResultView>, b: Seq<RunResultView>, serial: Seq<char>, start: int)
    requires
        a.len() == b.len(),
        forall|k: int| 0 <= k < a.len() ==> (#[trigger] a[k]).target == b[k].target,
    ensures
        run_index_from(a, serial, start) == run_index_from(b, serial, start),
    decreases a.len() - start,
{
    if 0 <= start < a.len() {
        assert(a[start].target == b[start].target);
        same_run_index(a, b, serial, start + 1);
    }
}

/// Results with the same places have a place for the same runs.
pub proof fn same_places_place_the_same(
    a: JobResultView,
    b: JobResultView,
    task_id: Uuid,
    serial: Seq<char>,
)
    requires
        same_places(a, b),
    ensures
        has_place(a, task_id, serial) == has_place(b, task_id, serial),
{
    same_task_index(a.tasks, b.tasks, task_id, 0);
    task_index_is_first(a.tasks, task_id, 0);
    if let Some(t) = task_index_from(a.tasks, task_id, 0) {
        assert(a.tasks[t].id == b.tasks[t].id);
        same_run_index(a.tasks[t].runs, b.tasks[t].runs, serial, 0);
    }
}

/// Storing an outcome keeps the places.
pub proof fn recording_keeps_the_places(
    results: JobResultView,
    task_id: Uuid,
    serial: Seq<char>,
    outcome: RunResultDetailsView,
)
    ensures
        same_places(recorded(results, task_id, serial, outcome), results),
{
    let after = recorded(results, task_id, serial, outcome);
    task_index_is_first(results.tasks, task_id, 0);
    if let Some(t) = task_index_from(results.tasks, task_id, 0) {
        run_index_is_first(results.tasks[t].runs, serial, 0);
    }
    assert forall|t: int| 0 <= t < after.tasks.len() implies {
        &&& (#[trigger] after.tasks[t]).id == results.tasks[t].id
        &&& after.tasks[t].runs.len() == results.tasks[t].runs.len()
        &&& forall|k: int|
            0 <= k < after.tasks[t].runs.len() ==> (#[trigger] after.tasks[t].runs[k]).target
                == results.tasks[t].runs[k].target
    } by {}
}

/// Attaching captures keeps the places.
pub proof fn captures_keep_the_places(results: JobResultView, captures: Seq<Seq<u8>>)
    ensures
        same_places(with_captures(results, captures), results),
        with_captures(results, captures).tasks == results.tasks,
    decreases captures.len(),
{
    if captures.len() > 0 {
        captures_keep_the_places(results, captures.drop_last());
    }
}

/// Whatever happens in the execution of a job, its results keep their
/// places: only outcomes and captures change.
pub proof fn execution_keeps_the_places(execution: ExecutionView, event: JobEventView)
    ensures
        same_places(advanced(execution, event).results, execution.results),
        advanced(execution, event).runs == execution.runs,
{
    match (execution.phase, event) {
        (ExecutionPhase::Collecting, JobEventView::RunEnded(details)) => {
            let run = execution.runs[execution.reported as int];
            recording_keeps_the_places(execution.results, run.task_id, run.probe_serial, details);
        },
        (ExecutionPhase::Stopping, JobEventView::Captured(captures)) => {
            captures_keep_the_places(execution.results, captures);
        },
        _ => {},
    }
}

/// Results that belong to a job still belong to it after every step of its
/// execution, in whatever order and with whatever outcome its runs end: a
/// task result for each task and a run for each target, in the order of the
/// job.
pub proof fn execution_keeps_the_layout(job: JobView, execution: ExecutionView, event: JobEventView)
    requires
        results_match(job, execution.results),
    ensures
        results_match(job, advanced(execution, event).results),
{
    execution_keeps_the_places(execution, event);
    let after = advanced(execution, event).results;
    assert forall|t: int| 0 <= t < job.tasks.len() implies {
        &&& (#[trigger] after.tasks[t]).id == job.tasks[t].id
        &&& after.tasks[t].runs.len() == job.tasks[t].targets.len()
        &&& forall|k: int|
            0 <= k < job.tasks[t].targets.len() ==> (#[trigger] after.tasks[t].runs[k]).target
                == job.tasks[t].targets[k]
    } by {
        assert(execution.results.tasks[t].id == job.tasks[t].id);
        assert forall|k: int| 0 <= k < job.tasks[t].targets.len() implies (
        #[trigger] after.tasks[t].runs[k]).target == job.tasks[t].targets[k] by {
            assert(execution.results.tasks[t].runs[k].target == job.tasks[t].targets[k]);
        }
    }
}

/// The results have a place for the outcome of every run of the plan.
pub open spec fn all_placed(execution: ExecutionView) -> bool {
    forall|i: int|
        0 <= i < execution.runs.len() ==> has_place(
            execution.results,
            (#[trigger] execution.runs[i]).task_id,
            execution.runs[i].probe_serial,
        )
}

/// Where the results have a place for every run, they keep having one, and
/// no outcome goes uncounted for want of a place.
pub proof fn placed_runs_stay_placed(execution: ExecutionView, event: JobEventView)
    requires
        execution_wf(execution),
        all_placed(execution),
    ensures
        all_placed(advanced(execution, event)),
        advanced(execution, event).unplaced == execution.unplaced,
{
    execution_keeps_the_places(execution, event);
    let after = advanced(execution, event);
    assert forall|i: int| 0 <= i < after.runs.len() implies has_place(
        after.results,
        (#[trigger] after.runs[i]).task_id,
        after.runs[i].probe_serial,
    ) by {
        same_places_place_the_same(
            after.results,
            execution.results,
            execution.runs[i].task_id,
            execution.runs[i].probe_serial,
        );
    }
    if execution.phase == ExecutionPhase::Collecting {
        assert(has_place(
            execution.results,
            execution.runs[execution.reported as int].task_id,
            execution.runs[execution.reported as int].probe_serial,
        ));
    }
}

/// Every run of the plan of a job is the run of one target of one task.
pub proof fn planned_run_is_of_a_target(
    job: JobView,
    configs: Seq<ProbeConfigView>,
    n: nat,
    i: int,
) -> (place: (int, int))
    requires
        n <= job.tasks.len(),
        0 <= i < job_runs_upto(job, configs, n).len(),
    ensures
        0 <= place.0 < n,
        0 <= place.1 < job.tasks[place.0].targets.len(),
        job_runs_upto(job, configs, n)[i] == planned_run(
            job.tasks[place.0],
            place.0 as nat,
            place.1,
            configs,
        ),
    decreases n,
{
    let head = job_runs_upto(job, configs, (n - 1) as nat);
    if i < head.len() {
        planned_run_is_of_a_target(job, configs, (n - 1) as nat, i)
    } else {
        (n - 1, i - head.len())
    }
}

/// The execution after a sequence of events, taken in order.
pub open spec fn advanced_over(execution: ExecutionView, events: Seq<JobEventView>) -> ExecutionView
    decreases events.len(),
{
    if events.len() == 0 {
        execution
    } else {
        advanced(advanced_over(execution, events.drop_last()), events.last())
    }
}

/// Over any sequence of events the results keep their places and the plan
/// stays as it is.
pub proof fn run_keeps_the_places(execution: ExecutionView, events: Seq<JobEventView>)
    ensures
        same_places(advanced_over(execution, events).results, execution.results),
        advanced_over(execution, events).runs == execution.runs,
    decreases events.len(),
{
    if events.len() > 0 {
        run_keeps_the_places(execution, events.drop_last());
        execution_keeps_the_places(advanced_over(execution, events.drop_last()), events.last());
    }
}

/// Over any sequence of events, in whatever order and with whatever outcome
/// the runs end, results that belong to a job still belong to it.
pub proof fn run_keeps_the_layout(job: JobView, execution: ExecutionView, events: Seq<JobEventView>)
    requires
        results_match(job, execution.results),
    ensures
        results_match(job, advanced_over(execution, events).results),
    decreases events.len(),
{
    if events.len() > 0 {
        run_keeps_the_layout(job, execution, events.drop_last());
        execution_keeps_the_layout(
            job,
            advanced_over(execution, events.drop_last()),
            events.last(),
        );
    }
}

/// Takes an execution through a sequence of events, in order: the execution
/// of a job whose actions were carried out and answered by these events.
/// Whatever the events, the results keep the places they began with.
pub fn run(execution: Execution, events: Vec<JobEvent>) -> (r: Execution)
    ensures
        r@ == advanced_over(execution@, views(events@)),
        same_places(r@.results, execution@.results),
        r@.runs == execution@.runs,
{
    let ghost start = execution@;
    let ghost all = views(events@);
    let mut current = execution;
    let mut events = events;
    // A vector gives up its elements from the end: turn the events round, so
    // that they can be taken first to last.
    let mut rest: Vec<JobEvent> = Vec::new();
    while events.len() > 0
        invariant
            all == views(events@) + views(rest@).reverse(),
        decreases events.len(),
    {
        let ghost before = events@;
        let ghost kept = rest@;
        match events.pop() {
            Some(event) => {
                proof {
                    views_of_push(kept, event);
                    assert(before =~= events@.push(event));
                    views_of_push(events@, event);
                    assert(views(kept.push(event)).reverse() =~= seq![event@] + views(kept).reverse());
                    assert(views(events@).push(event@) + views(kept).reverse() =~= views(events@)
                        + (seq![event@] + views(kept).reverse()));
                }
                rest.push(event);
            },
            None => {},
        }
    }
    proof {
        assert(all =~= views(rest@).reverse());
        assert(all.take(0) =~= Seq::<JobEventView>::empty());
    }
    let ghost total = rest@.len();
    while rest.len() > 0
        invariant
            rest@.len() <= total,
            total == all.len(),
            all.skip((total - rest@.len()) as int) == views(rest@).reverse(),
            current@ == advanced_over(start, all.take((total - rest@.len()) as int)),
        decreases rest.len(),
    {
        let ghost done = (total - rest@.len()) as int;
        let ghost before = rest@;
        match rest.pop() {
            Some(event) => {
                proof {
                    assert(before =~= rest@.push(event));
                    views_of_push(rest@, event);
                    assert(views(before).reverse()[0] == event@);
                    assert(all[done] == all.skip(done)[0]);
                    assert(all.take(done + 1).drop_last() =~= all.take(done));
                    assert(all.take(done + 1).last() == event@);
                    assert(all.skip(done + 1) =~= views(rest@).reverse()) by {
                        assert(views(before).reverse().drop_first() =~= views(rest@).reverse());
                        assert(all.skip(done).drop_first() =~= all.skip(done + 1));
                    }
                }
                current = current.advance(event);
            },
            None => {},
        }
    }
    proof {
        assert(all.take(total as int) =~= all);
        run_keeps_the_places(start, all);
    }
    current
}

} // verus!
