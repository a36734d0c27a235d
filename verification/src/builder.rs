//! Builders of job descriptions, for clients. They check that nothing is
//! missing; whether the targets exist is for the server to say.

use crate::encoding::{base64_encoding, encode_base64};
use crate::job::{JobDesc, JobDescView, TaskDesc, TaskDescView};
use crate::model::{views, views_of_push};
use crate::selector::{RunOn, RunOnView};
use vstd::prelude::*;

verus! {

/// What is missing in a job description.
#[derive(Debug, Clone, Copy, PartialEq, Eq, Structural)]
pub enum Error {
    /// No timeout was specified for a job.
    NoTimeout,
    /// No selector was specified for a task.
    NoRunOns,
    /// No ELF file was specified for a task.
    NoElf,
    /// No task was specified for a job.
    NoTasks,
}

impl Error {
    /// The error in words.
    pub fn message(&self) -> (r: &'static str)
        ensures
            r@ == match *self {
                Error::NoTimeout => "No timeout was specified for a job"@,
                Error::NoRunOns => "No run_ons have been specified for a task"@,
                Error::NoElf => "No ELF has been specified for a task"@,
                Error::NoTasks => "No tasks has been specified for a job"@,
            },
    {
        match self {
            Error::NoTimeout => "No timeout was specified for a job",
            Error::NoRunOns => "No run_ons have been specified for a task",
            Error::NoElf => "No ELF has been specified for a task",
            Error::NoTasks => "No tasks has been specified for a job",
        }
    }
}

/// Mathematical model of a [`JobDescBuilder`].
pub struct JobDescBuilderView {
    pub tasks: Seq<TaskDescView>,
    pub timeout_secs: Option<u32>,
}

/// Builder of a [`JobDesc`].
pub struct JobDescBuilder {
    tasks: Vec<TaskDesc>,
    timeout_secs: Option<u32>,
}

impl View for JobDescBuilder {
    type V = JobDescBuilderView;

    closed spec fn view(&self) -> JobDescBuilderView {
        JobDescBuilderView { tasks: views(self.tasks@), timeout_secs: self.timeout_secs }
    }
}

/// Mathematical model of a [`TaskDescBuilder`].
pub struct TaskDescBuilderView {
    pub parent: JobDescBuilderView,
    pub elf: Option<Seq<u8>>,
    pub run_ons: Seq<RunOnView>,
}

/// Builder of a [`TaskDesc`], within the builder of its job.
pub struct TaskDescBuilder {
    parent_builder: JobDescBuilder,
    elf: Option<Vec<u8>>,
    run_ons: Vec<RunOn>,
}

impl View for TaskDescBuilder {
    type V = TaskDescBuilderView;

    closed spec fn view(&self) -> TaskDescBuilderView {
        TaskDescBuilderView {
            parent: self.parent_builder@,
            elf: match self.elf {
                Some(elf) => Some(elf@),
                None => None,
            },
            run_ons: views(self.run_ons@),
        }
    }
}

/// The description that a builder of a job stands for, or what it lacks:
/// tasks are missed before the timeout.
pub open spec fn built_job(builder: JobDescBuilderView) -> Result<JobDescView, Error> {
    if builder.tasks.len() == 0 {
        Err(Error::NoTasks)
    } else {
        match builder.timeout_secs {
            None => Err(Error::NoTimeout),
            Some(timeout_secs) => Ok(JobDescView { tasks: builder.tasks, timeout_secs }),
        }
    }
}

/// The builder of the job after a task was finished, or what the task
/// lacks: selectors are missed before the ELF file. The binary of the task
/// is the base64 text of the ELF file.
pub open spec fn finished_task(builder: TaskDescBuilderView) -> Result<JobDescBuilderView, Error> {
    if builder.run_ons.len() == 0 {
        Err(Error::NoRunOns)
    } else {
        match builder.elf {
            None => Err(Error::NoElf),
            Some(elf) => Ok(
                JobDescBuilderView {
                    tasks: builder.parent.tasks.push(
                        TaskDescView { run_on: builder.run_ons, binary_b64: base64_encoding(elf) },
                    ),
                    ..builder.parent
                },
            ),
        }
    }
}

/// The outcome of a build as plain values.
pub open spec fn job_view(r: Result<JobDesc, Error>) -> Result<JobDescView, Error> {
    match r {
        Ok(desc) => Ok(desc@),
        Err(e) => Err(e),
    }
}

/// The outcome of finishing a task as plain values.
pub open spec fn builder_view(r: Result<JobDescBuilder, Error>) -> Result<JobDescBuilderView, Error> {
    match r {
        Ok(builder) => Ok(builder@),
        Err(e) => Err(e),
    }
}

impl JobDescBuilder {
    /// A builder without tasks and without timeout.
    pub fn new() -> (r: Self)
        ensures
            r@ == (JobDescBuilderView { tasks: Seq::empty(), timeout_secs: None }),
    {
        let r = JobDescBuilder { tasks: Vec::new(), timeout_secs: None };
        assert(r@.tasks =~= Seq::<TaskDescView>::empty());
        r
    }

    /// Begins a new task. The task is finished with
    /// [`TaskDescBuilder::done`], or with [`TaskDescBuilder::build`] where it
    /// is the last.
    pub fn add_task(self) -> (r: TaskDescBuilder)
        ensures
            r@ == (TaskDescBuilderView { parent: self@, elf: None, run_ons: Seq::empty() }),
    {
        TaskDescBuilder::new(self)
    }

    /// Sets the timeout of the job.
    pub fn set_timeout(self, timeout_secs: u32) -> (r: JobDescBuilder)
        ensures
            r@ == (JobDescBuilderView { timeout_secs: Some(timeout_secs), ..self@ }),
    {
        let mut builder = self;
        builder.timeout_secs = Some(timeout_secs);
        builder
    }

    /// Finishes the job.
    pub fn build(self) -> (r: Result<JobDesc, Error>)
        ensures
            job_view(r) == built_job(self@),
    {
        if self.tasks.len() == 0 {
            return Err(Error::NoTasks);
        }
        match self.timeout_secs {
            Some(timeout_secs) => Ok(JobDesc { tasks: self.tasks, timeout_secs }),
            None => Err(Error::NoTimeout),
        }
    }
}

impl TaskDescBuilder {
    /// A builder of a task without ELF file and without selectors.
    pub fn new(parent_builder: JobDescBuilder) -> (r: Self)
        ensures
            r@ == (TaskDescBuilderView { parent: parent_builder@, elf: None, run_ons: Seq::empty() }),
    {
        let r = TaskDescBuilder { parent_builder, elf: None, run_ons: Vec::new() };
        assert(r@.run_ons =~= Seq::<RunOnView>::empty());
        r
    }

    /// Sets the ELF file to run on the targets of the task.
    pub fn elf_executable(self, elf: Vec<u8>) -> (r: Self)
        ensures
            r@ == (TaskDescBuilderView { elf: Some(elf@), ..self@ }),
    {
        let mut builder = self;
        builder.elf = Some(elf);
        builder
    }

    /// Adds a selector of targets on which the ELF file is to run.
    pub fn run_on(self, run_on: RunOn) -> (r: Self)
        ensures
            r@ == (TaskDescBuilderView { run_ons: self@.run_ons.push(run_on@), ..self@ }),
    {
        let mut builder = self;
        proof {
            views_of_push(builder.run_ons@, run_on);
        }
        builder.run_ons.push(run_on);
        builder
    }

    /// Finishes the task and hands back the builder of the job.
    pub fn done(self) -> (r: Result<JobDescBuilder, Error>)
        ensures
            builder_view(r) == finished_task(self@),
    {
        if self.run_ons.len() == 0 {
            return Err(Error::NoRunOns);
        }
        let TaskDescBuilder { parent_builder, elf, run_ons } = self;
        let elf = match elf {
            Some(elf) => elf,
            None => {
                return Err(Error::NoElf);
            },
        };
        let mut parent = parent_builder;
        let task = TaskDesc { run_on: run_ons, binary_b64: encode_base64(elf.as_slice()) };
        proof {
            views_of_push(parent.tasks@, task);
        }
        parent.tasks.push(task);
        Ok(parent)
    }

    /// Finishes the task and, with it, the job.
    pub fn build(self) -> (r: Result<JobDesc, Error>)
        ensures
            job_view(r) == match finished_task(self@) {
                Ok(parent) => built_job(parent),
                Err(e) => Err(e),
            },
    {
        match self.done() {
            Ok(parent) => parent.build(),
            Err(e) => Err(e),
        }
    }
}

} // verus!
