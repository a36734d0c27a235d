//! Job descriptions, validated jobs and their results.

use crate::ident::{fresh_uuid, is_version_four, ProbeSerial, Uuid};
use crate::model::views;
use crate::selector::{RunOn, RunOnView};
use crate::target::{clone_targets, Target, TargetView};
use vstd::prelude::*;
use vstd::string::StringExecFns;

verus! {

/// Mathematical model of a [`TaskDesc`].
pub struct TaskDescView {
    pub run_on: Seq<RunOnView>,
    pub binary_b64: Seq<char>,
}

/// What a client asks for one firmware image: the targets, by selectors, and
/// the image itself.
#[derive(Debug, Clone)]
pub struct TaskDesc {
    /// On which targets the task should run.
    pub run_on: Vec<RunOn>,
    /// The base64 text of the ELF file with the firmware.
    pub binary_b64: String,
}

impl View for TaskDesc {
    type V = TaskDescView;

    open spec fn view(&self) -> TaskDescView {
        TaskDescView { run_on: views(self.run_on@), binary_b64: self.binary_b64@ }
    }
}

/// Mathematical model of a [`JobDesc`].
pub struct JobDescView {
    pub tasks: Seq<TaskDescView>,
    pub timeout_secs: u32,
}

/// What a client submits: tasks that run in one window, and a timeout.
#[derive(Debug, Clone)]
pub struct JobDesc {
    /// The tasks, which run at the same time.
    pub tasks: Vec<TaskDesc>,
    /// Timeout of the job in seconds.
    pub timeout_secs: u32,
}

impl View for JobDesc {
    type V = JobDescView;

    open spec fn view(&self) -> JobDescView {
        JobDescView { tasks: views(self.tasks@), timeout_secs: self.timeout_secs }
    }
}

/// Mathematical model of a [`Task`].
pub struct TaskView {
    pub id: Uuid,
    pub targets: Seq<TargetView>,
    pub binary: Seq<u8>,
}

/// One firmware image and the targets on which it runs.
#[derive(Debug)]
pub struct Task {
    /// Task identifier.
    pub id: Uuid,
    /// The targets of the task, resolved.
    pub targets: Vec<Target>,
    /// The ELF file to run on each of `targets`.
    pub binary: Vec<u8>,
}

impl View for Task {
    type V = TaskView;

    open spec fn view(&self) -> TaskView {
        TaskView { id: self.id, targets: views(self.targets@), binary: self.binary@ }
    }
}

impl Clone for Task {
    fn clone(&self) -> (r: Self)
        ensures
            r@ == self@,
    {
        Task { id: self.id, targets: clone_targets(&self.targets), binary: self.binary.clone() }
    }
}

impl Task {
    /// A task on `targets` with `binary`, under an identifier drawn afresh.
    pub fn from_desc(targets: Vec<Target>, binary: Vec<u8>) -> (r: Self)
        ensures
            r@.targets == views(targets@),
            r@.binary == binary@,
            is_version_four(r@.id),
    {
        Task { id: fresh_uuid(), targets, binary }
    }
}

/// No two tasks share an identifier.
pub open spec fn distinct_task_ids(tasks: Seq<TaskView>) -> bool {
    forall|i: int, j: int|
        0 <= i < j < tasks.len() ==> (#[trigger] tasks[i]).id != (#[trigger] tasks[j]).id
}

/// Mathematical model of a [`Job`].
pub struct JobView {
    pub id: Uuid,
    pub tasks: Seq<TaskView>,
    pub timeout_secs: u64,
}

/// A validated job: every selector resolved, every binary decoded.
#[derive(Debug)]
pub struct Job {
    /// Job identifier.
    pub id: Uuid,
    /// The tasks that make up the job.
    pub tasks: Vec<Task>,
    /// Upper limit, in whole seconds, for how long the job may occupy the
    /// server.
    pub timeout_secs: u64,
}

impl View for Job {
    type V = JobView;

    open spec fn view(&self) -> JobView {
        JobView { id: self.id, tasks: views(self.tasks@), timeout_secs: self.timeout_secs }
    }
}

impl Job {
    /// Whether no two tasks of the job share an identifier.
    pub fn has_distinct_task_ids(&self) -> (r: bool)
        ensures
            r == distinct_task_ids(self@.tasks),
    {
        let mut j: usize = 0;
        while j < self.tasks.len()
            invariant
                j <= self.tasks.len(),
                forall|a: int, b: int|
                    0 <= a < b < j ==> (#[trigger] self@.tasks[a]).id != (
                    #[trigger] self@.tasks[b]).id,
            decreases self.tasks.len() - j,
        {
            let mut i: usize = 0;
            while i < j
                invariant
                    i <= j < self.tasks.len(),
                    forall|a: int| 0 <= a < i ==> (#[trigger] self@.tasks[a]).id != self@.tasks[j as int].id,
                decreases j - i,
            {
                assert(self@.tasks[i as int] == self.tasks@[i as int]@);
                assert(self@.tasks[j as int] == self.tasks@[j as int]@);
                if self.tasks[i].id == self.tasks[j].id {
                    return false;
                }
                i += 1;
            }
            j += 1;
        }
        true
    }
}

impl Clone for Job {
    fn clone(&self) -> (r: Self)
        ensures
            r@ == self@,
    {
        let mut tasks: Vec<Task> = Vec::new();
        let mut i: usize = 0;
        while i < self.tasks.len()
            invariant
                i <= self.tasks.len(),
                tasks@.len() == i,
                forall|k: int| 0 <= k < i ==> (#[trigger] tasks@[k])@ == self.tasks@[k]@,
            decreases self.tasks.len() - i,
        {
            tasks.push(self.tasks[i].clone());
            i += 1;
        }
        assert(views(tasks@) =~= views(self.tasks@));
        Job { id: self.id, tasks, timeout_secs: self.timeout_secs }
    }
}

/// Mathematical model of a [`RunResultDetails`].
pub enum RunResultDetailsView {
    Failure { error: Seq<char> },
    Success { logs: Seq<Seq<char>> },
}

/// How one run ended.
#[derive(Debug, Clone)]
pub enum RunResultDetails {
    /// The run failed: the firmware did not halt at its breakpoint in time,
    /// or the run could not be set up.
    Failure {
        /// The error in words.
        error: String,
    },
    /// The run succeeded: the firmware halted at its breakpoint in time.
    Success {
        /// The log lines captured during the run.
        logs: Vec<String>,
    },
}

impl View for RunResultDetails {
    type V = RunResultDetailsView;

    open spec fn view(&self) -> RunResultDetailsView {
        match self {
            RunResultDetails::Failure { error } => RunResultDetailsView::Failure { error: error@ },
            RunResultDetails::Success { logs } => RunResultDetailsView::Success {
                logs: views(logs@),
            },
        }
    }
}

/// The result of a run that nothing has reported on yet.
pub open spec fn never_set() -> RunResultDetailsView {
    RunResultDetailsView::Failure { error: "Never set, possibly timed out"@ }
}

impl Default for RunResultDetails {
    fn default() -> (r: Self)
        ensures
            r@ == never_set(),
    {
        RunResultDetails::Failure { error: String::from_str("Never set, possibly timed out") }
    }
}

/// Mathematical model of a [`RunResult`].
pub struct RunResultView {
    pub target: TargetView,
    pub result: RunResultDetailsView,
}

/// The result of the run of a task on one target.
#[derive(Debug, Clone)]
pub struct RunResult {
    /// The target of the run.
    pub target: Target,
    /// How the run ended.
    pub result: RunResultDetails,
}

impl View for RunResult {
    type V = RunResultView;

    open spec fn view(&self) -> RunResultView {
        RunResultView { target: self.target@, result: self.result@ }
    }
}

/// Mathematical model of a [`TaskResult`].
pub struct TaskResultView {
    pub id: Uuid,
    pub runs: Seq<RunResultView>,
}

/// The results of a task: one run for each of its targets.
#[derive(Debug, Clone)]
pub struct TaskResult {
    /// Identifier of the task.
    pub id: Uuid,
    /// The runs, in the order of the task's targets.
    pub runs: Vec<RunResult>,
}

impl View for TaskResult {
    type V = TaskResultView;

    open spec fn view(&self) -> TaskResultView {
        TaskResultView { id: self.id, runs: views(self.runs@) }
    }
}

/// Mathematical model of a [`JobResult`].
pub struct JobResultView {
    pub id: Uuid,
    pub tasks: Seq<TaskResultView>,
    pub logic_analyzer_capture: Seq<Seq<char>>,
}

/// The results of a job: every run of every task.
#[derive(Debug, Clone)]
pub struct JobResult {
    /// Identifier of the job.
    pub id: Uuid,
    /// The results of the tasks, in the order of the job's tasks.
    pub tasks: Vec<TaskResult>,
    /// Captures of the logic analyzers during the run window, as base64 text.
    pub logic_analyzer_capture: Vec<String>,
}

impl View for JobResult {
    type V = JobResultView;

    open spec fn view(&self) -> JobResultView {
        JobResultView {
            id: self.id,
            tasks: views(self.tasks@),
            logic_analyzer_capture: views(self.logic_analyzer_capture@),
        }
    }
}

/// The run of `target` that nothing has reported on yet.
pub open spec fn empty_run(target: TargetView) -> RunResultView {
    RunResultView { target, result: never_set() }
}

/// The results of `task` before any run has reported.
pub open spec fn empty_task_result(task: TaskView) -> TaskResultView {
    TaskResultView {
        id: task.id,
        runs: Seq::new(task.targets.len(), |k: int| empty_run(task.targets[k])),
    }
}

/// The results of `job` before any run has reported: a task result for each
/// task and a run for each target, in the same order, every run never set.
pub open spec fn empty_job_result(job: JobView) -> JobResultView {
    JobResultView {
        id: job.id,
        tasks: Seq::new(job.tasks.len(), |t: int| empty_task_result(job.tasks[t])),
        logic_analyzer_capture: Seq::empty(),
    }
}

/// Index of the first task result at or after `start` whose identifier is
/// `id`.
pub open spec fn task_index_from(tasks: Seq<TaskResultView>, id: Uuid, start: int) -> Option<int>
    decreases tasks.len() - start,
{
    if start < 0 || start >= tasks.len() {
        None
    } else if tasks[start].id == id {
        Some(start)
    } else {
        task_index_from(tasks, id, start + 1)
    }
}

/// Index of the first run at or after `start` whose target has probe serial
/// `serial`.
pub open spec fn run_index_from(runs: Seq<RunResultView>, serial: Seq<char>, start: int) -> Option<
    int,
>
    decreases runs.len() - start,
{
    if start < 0 || start >= runs.len() {
        None
    } else if runs[start].target.probe_serial == serial {
        Some(start)
    } else {
        run_index_from(runs, serial, start + 1)
    }
}

/// What `task_index_from` finds is the first task result at or after `start`
/// with the identifier.
pub proof fn task_index_is_first(tasks: Seq<TaskResultView>, id: Uuid, start: int)
    requires
        0 <= start,
    ensures
        match task_index_from(tasks, id, start) {
            Some(t) => start <= t < tasks.len() && tasks[t].id == id && forall|j: int|
                start <= j < t ==> (#[trigger] tasks[j]).id != id,
            None => forall|j: int| start <= j < tasks.len() ==> (#[trigger] tasks[j]).id != id,
        },
    decreases tasks.len() - start,
{
    if start < tasks.len() && tasks[start].id != id {
        task_index_is_first(tasks, id, start + 1);
    }
}

/// What `run_index_from` finds is the first run at or after `start` on the
/// probe with the serial.
pub proof fn run_index_is_first(runs: Seq<RunResultView>, serial: Seq<char>, start: int)
    requires
        0 <= start,
    ensures
        match run_index_from(runs, serial, start) {
            Some(k) => start <= k < runs.len() && runs[k].target.probe_serial == serial
                && forall|j: int| start <= j < k ==> (#[trigger] runs[j]).target.probe_serial != serial,
            None => forall|j: int|
                start <= j < runs.len() ==> (#[trigger] runs[j]).target.probe_serial != serial,
        },
    decreases runs.len() - start,
{
    if start < runs.len() && runs[start].target.probe_serial != serial {
        run_index_is_first(runs, serial, start + 1);
    }
}

impl TaskResult {
    /// Results for `task` in which no run has reported.
    pub fn empty_from_task(task: &Task) -> (r: Self)
        ensures
            r@ == empty_task_result(task@),
    {
        let mut runs: Vec<RunResult> = Vec::new();
        let mut k: usize = 0;
        while k < task.targets.len()
            invariant
                k <= task.targets.len(),
                runs@.len() == k,
                forall|j: int| 0 <= j < k ==> (#[trigger] runs@[j])@ == empty_run(task.targets@[j]@),
            decreases task.targets.len() - k,
        {
            runs.push(RunResult { target: task.targets[k].clone(), result: Default::default() });
            k += 1;
        }
        let r = TaskResult { id: task.id, runs };
        assert(r@.runs =~= empty_task_result(task@).runs);
        r
    }

    /// Index of the first run whose target has probe serial `probe_serial`.
    pub fn run_index_by_probe_serial(&self, probe_serial: &ProbeSerial) -> (r: Option<usize>)
        ensures
            match r {
                Some(k) => run_index_from(self@.runs, probe_serial@, 0) == Some(k as int),
                None => run_index_from(self@.runs, probe_serial@, 0) is None,
            },
            r matches Some(k) ==> k < self.runs.len(),
    {
        let mut k: usize = 0;
        while k < self.runs.len()
            invariant
                k <= self.runs.len(),
                run_index_from(self@.runs, probe_serial@, 0) == run_index_from(
                    self@.runs,
                    probe_serial@,
                    k as int,
                ),
            decreases self.runs.len() - k,
        {
            assert(self@.runs[k as int] == self.runs@[k as int]@);
            if self.runs[k].target.probe_serial == *probe_serial {
                return Some(k);
            }
            k += 1;
        }
        None
    }

    /// The first run whose target has probe serial `probe_serial`, to be
    /// written through.
    pub fn run_mut_by_probe_serial(&mut self, probe_serial: &ProbeSerial) -> (r: Option<
        &mut RunResult,
    >)
        ensures
            match r {
                Some(run) => {
                    &&& run_index_from(old(self)@.runs, probe_serial@, 0) matches Some(k)
                    &&& *run == old(self).runs@[k]
                    &&& final(self).runs@ == old(self).runs@.update(k, *final(run))
                    &&& final(self).id == old(self).id
                },
                None => run_index_from(old(self)@.runs, probe_serial@, 0) is None && *final(self)
                    == *old(self),
            },
    {
        match self.run_index_by_probe_serial(probe_serial) {
            Some(k) => Some(&mut self.runs[k]),
            None => None,
        }
    }
}

impl JobResult {
    /// Results for `job` in which no run has reported. To be filled in as the
    /// runs end.
    pub fn empty_from_job(job: &Job) -> (r: Self)
        ensures
            r@ == empty_job_result(job@),
    {
        let mut tasks: Vec<TaskResult> = Vec::new();
        let mut t: usize = 0;
        while t < job.tasks.len()
            invariant
                t <= job.tasks.len(),
                tasks@.len() == t,
                forall|j: int|
                    0 <= j < t ==> (#[trigger] tasks@[j])@ == empty_task_result(job.tasks@[j]@),
            decreases job.tasks.len() - t,
        {
            tasks.push(TaskResult::empty_from_task(&job.tasks[t]));
            t += 1;
        }
        let r = JobResult { id: job.id, tasks, logic_analyzer_capture: Vec::new() };
        assert(r@.tasks =~= empty_job_result(job@).tasks);
        assert(r@.logic_analyzer_capture =~= Seq::<Seq<char>>::empty());
        r
    }

    /// Index of the first task result whose identifier is `id`.
    pub fn task_index_by_id(&self, id: Uuid) -> (r: Option<usize>)
        ensures
            match r {
                Some(t) => task_index_from(self@.tasks, id, 0) == Some(t as int),
                None => task_index_from(self@.tasks, id, 0) is None,
            },
            r matches Some(t) ==> t < self.tasks.len(),
    {
        let mut t: usize = 0;
        while t < self.tasks.len()
            invariant
                t <= self.tasks.len(),
                task_index_from(self@.tasks, id, 0) == task_index_from(self@.tasks, id, t as int),
            decreases self.tasks.len() - t,
        {
            assert(self@.tasks[t as int] == self.tasks@[t as int]@);
            if self.tasks[t].id == id {
                return Some(t);
            }
            t += 1;
        }
        None
    }

    /// The first task result whose identifier is `id`, to be written through.
    pub fn task_mut_by_id(&mut self, id: Uuid) -> (r: Option<&mut TaskResult>)
        ensures
            match r {
                Some(task) => {
                    &&& task_index_from(old(self)@.tasks, id, 0) matches Some(t)
                    &&& *task == old(self).tasks@[t]
                    &&& final(self).tasks@ == old(self).tasks@.update(t, *final(task))
                    &&& final(self).id == old(self).id
                    &&& final(self).logic_analyzer_capture == old(self).logic_analyzer_capture
                },
                None => task_index_from(old(self)@.tasks, id, 0) is None && *final(self) == *old(
                    self,
                ),
            },
    {
        match self.task_index_by_id(id) {
            Some(t) => Some(&mut self.tasks[t]),
            None => None,
        }
    }
}

} // verus!
