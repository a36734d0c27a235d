use embedded_ci::executor::{finish_job, start_job};
use embedded_ci::ident::{ProbeAlias, ProbeSerial, TargetGroup, TargetName};
use embedded_ci::job::{Job, JobDesc, JobResult, RunResultDetails, TaskDesc};
use embedded_ci::selector::RunOn;
use embedded_ci::job::Task;
use embedded_ci::server::{
    collect_finished_job, conclude_admission, get_job_by_id, last_job, post_job, submit,
    PostJobError, SendOutcome,
};
use embedded_ci::status::{JobStatus, ServerStatus};
use embedded_ci::target::{Target, Targets};
use std::collections::VecDeque;

fn three_targets() -> Targets {
    let mut targets = Targets::new();
    for n in 1..=3 {
        targets
            .push(Target {
                probe_serial: ProbeSerial(format!("PROBE_SERIAL_{n}")),
                probe_alias: ProbeAlias(format!("PROBE_ALIAS_{n}")),
                target_name: TargetName(format!("TARGET_{n}")),
                groups: vec![TargetGroup("GROUP_A".into())].into(),
            })
            .unwrap();
    }
    targets
}

fn desc() -> JobDesc {
    JobDesc {
        tasks: vec![TaskDesc {
            run_on: vec![RunOn::ProbeSerials(vec![ProbeSerial("PROBE_SERIAL_1".into())])],
            binary_b64: "bm90X2NoZWNrZWQ=".into(),
        }],
        timeout_secs: 7,
    }
}

fn job(id: u128) -> Job {
    Job { id, tasks: Vec::new(), timeout_secs: 1 }
}

fn result(id: u128) -> JobResult {
    JobResult { id, tasks: Vec::new(), logic_analyzer_capture: Vec::new() }
}

#[test]
fn new_status_knows_no_job() {
    let status = ServerStatus::new();
    assert_eq!(status.job_status(1), JobStatus::NotFound);
    assert_eq!(status.current_job(), None);
    assert_eq!(status.queue_len(), 0);
    assert_eq!(status.finished_len(), 0);
}

#[test]
fn a_job_goes_from_queued_to_running_to_finished_to_absent() {
    let mut status = ServerStatus::default();
    status.job_enqueued(11);
    status.job_enqueued(12);
    assert_eq!(status.job_status(11), JobStatus::InQueue);
    assert_eq!(status.job_status(12), JobStatus::InQueue);
    assert_eq!(status.next_in_queue(), Some(11));
    status.job_started(11);
    assert_eq!(status.job_status(11), JobStatus::Running);
    assert_eq!(status.current_job(), Some(11));
    assert_eq!(status.next_in_queue(), Some(12));
    status.job_finished(11);
    assert_eq!(status.job_status(11), JobStatus::Finished);
    assert_eq!(status.current_job(), None);
    assert_eq!(status.finished_len(), 1);
    status.job_cleared(11);
    assert_eq!(status.job_status(11), JobStatus::NotFound);
    assert_eq!(status.job_status(12), JobStatus::InQueue);
    assert_eq!(status.queue_len(), 1);
}

#[test]
fn clearing_an_unknown_job_changes_nothing() {
    let mut status = ServerStatus::new();
    status.job_enqueued(5);
    status.job_cleared(5);
    status.job_cleared(6);
    assert_eq!(status.job_status(5), JobStatus::InQueue);
    assert_eq!(status.finished_len(), 0);
}

#[test]
fn admission_enters_the_job_before_it_is_handed_back() {
    let (tx, _rx) = tokio::sync::mpsc::channel::<Job>(2);
    let mut status = ServerStatus::new();
    let job = post_job(desc(), &tx, &mut status, &three_targets()).unwrap();
    assert_eq!(status.job_status(job.id), JobStatus::InQueue);
    assert_eq!(job.timeout_secs, 7);
    assert_eq!(job.tasks.len(), 1);
    assert_eq!(job.tasks[0].binary, b"not_checked".to_vec());
}

#[test]
fn third_job_is_refused_while_the_queue_of_two_is_full() {
    let (tx, _rx) = tokio::sync::mpsc::channel::<Job>(2);
    let mut status = ServerStatus::new();
    let targets = three_targets();
    let first = post_job(desc(), &tx, &mut status, &targets).unwrap();
    let second = post_job(desc(), &tx, &mut status, &targets).unwrap();
    let third = post_job(desc(), &tx, &mut status, &targets);
    assert!(matches!(third, Err(PostJobError::TooManyJobs)));
    assert_eq!(status.queue_len(), 2);
    assert_eq!(status.next_in_queue(), Some(first.id));
    assert_eq!(status.job_status(second.id), JobStatus::InQueue);
}

#[test]
fn job_is_refused_when_the_executor_is_gone() {
    let (tx, rx) = tokio::sync::mpsc::channel::<Job>(2);
    drop(rx);
    let mut status = ServerStatus::new();
    let refused = post_job(desc(), &tx, &mut status, &three_targets());
    assert!(matches!(refused, Err(PostJobError::InternalQueueClosed)));
    assert_eq!(status.queue_len(), 0);
}

#[test]
fn invalid_job_is_refused_with_its_problems() {
    let (tx, _rx) = tokio::sync::mpsc::channel::<Job>(2);
    let mut status = ServerStatus::new();
    let mut bad = desc();
    bad.tasks[0].run_on = Vec::new();
    match post_job(bad, &tx, &mut status, &three_targets()) {
        Err(PostJobError::InvalidJob(errors)) => assert_eq!(errors.len(), 1),
        other => panic!("expected InvalidJob, found {:?}", other),
    }
    assert_eq!(status.queue_len(), 0);
}

#[test]
fn the_job_sent_is_the_job_handed_back() {
    let (tx, mut rx) = tokio::sync::mpsc::channel::<Job>(2);
    let mut status = ServerStatus::new();
    let job = post_job(desc(), &tx, &mut status, &three_targets()).unwrap();
    let sent = rx.try_recv().unwrap();
    assert_eq!(sent.id, job.id);
    assert_eq!(sent.tasks[0].id, job.tasks[0].id);
    assert_eq!(sent.tasks[0].targets, job.tasks[0].targets);
}

#[test]
fn resubmitting_the_same_description_gives_another_job() {
    let (tx, _rx) = tokio::sync::mpsc::channel::<Job>(4);
    let mut status = ServerStatus::new();
    let targets = three_targets();
    let first = post_job(desc(), &tx, &mut status, &targets).unwrap();
    let second = post_job(desc(), &tx, &mut status, &targets).unwrap();
    assert_ne!(first.id, second.id);
    assert_ne!(first.tasks[0].id, second.tasks[0].id);
}

#[test]
fn job_identifiers_are_version_four() {
    let job = Job::from_desc(desc(), &three_targets()).unwrap();
    assert_eq!((job.id >> 76) & 0xf, 4);
    assert_eq!((job.id >> 62) & 0x3, 2);
    assert_ne!(job.id, job.tasks[0].id);
}

#[test]
fn conclude_admission_follows_the_outcome_of_the_send() {
    let mut status = ServerStatus::new();
    assert!(matches!(
        conclude_admission(&mut status, job(1), SendOutcome::Full),
        Err(PostJobError::TooManyJobs)
    ));
    assert!(matches!(
        conclude_admission(&mut status, job(1), SendOutcome::Closed),
        Err(PostJobError::InternalQueueClosed)
    ));
    assert_eq!(status.job_status(1), JobStatus::NotFound);
    let admitted = conclude_admission(&mut status, job(1), SendOutcome::Sent).unwrap();
    assert_eq!(admitted.id, 1);
    assert_eq!(status.job_status(1), JobStatus::InQueue);
}

#[test]
fn oldest_result_is_dropped_when_the_store_of_two_is_full() {
    let mut status = ServerStatus::new();
    let mut store: VecDeque<JobResult> = VecDeque::new();
    for id in [1u128, 2, 3] {
        status.job_enqueued(id);
        assert!(start_job(&mut status, &job(id)).is_some());
        assert!(finish_job(&mut status, id));
        let dropped = collect_finished_job(&mut store, &mut status, result(id), 2);
        if id == 3 {
            assert_eq!(dropped.map(|d| d.id), Some(1));
        } else {
            assert!(dropped.is_none());
        }
        assert!(status.finished_len() <= 2);
    }
    assert_eq!(store.len(), 2);
    assert_eq!(get_job_by_id(1, &status, &store).map(|r| r.id), Err(JobStatus::NotFound));
    assert_eq!(get_job_by_id(2, &status, &store).map(|r| r.id), Ok(2));
    assert_eq!(get_job_by_id(3, &status, &store).map(|r| r.id), Ok(3));
    assert_eq!(last_job(&store).map(|r| r.id), Some(3));
}

#[test]
fn a_result_is_asked_for_too_early_while_the_job_waits_or_runs() {
    let mut status = ServerStatus::new();
    let store: VecDeque<JobResult> = VecDeque::new();
    status.job_enqueued(4);
    assert_eq!(get_job_by_id(4, &status, &store).map(|r| r.id), Err(JobStatus::InQueue));
    status.job_started(4);
    assert_eq!(get_job_by_id(4, &status, &store).map(|r| r.id), Err(JobStatus::Running));
    assert_eq!(get_job_by_id(5, &status, &store).map(|r| r.id), Err(JobStatus::NotFound));
    assert!(last_job(&store).is_none());
}

#[test]
fn only_the_head_of_the_queue_starts() {
    let mut status = ServerStatus::new();
    status.job_enqueued(1);
    status.job_enqueued(2);
    assert!(start_job(&mut status, &job(2)).is_none());
    assert_eq!(status.job_status(2), JobStatus::InQueue);
    let started = start_job(&mut status, &job(1)).unwrap();
    assert_eq!(started.id, 1);
    assert!(start_job(&mut status, &job(2)).is_none());
    assert!(!finish_job(&mut status, 2));
    assert!(finish_job(&mut status, 1));
    assert!(start_job(&mut status, &job(2)).is_some());
}

#[test]
fn a_run_that_nobody_reported_counts_as_failed() {
    match RunResultDetails::default() {
        RunResultDetails::Failure { error } => assert_eq!(error, "Never set, possibly timed out"),
        other => panic!("expected Failure, found {:?}", other),
    }
}

#[test]
fn job_under_a_known_identifier_is_refused_and_not_sent() {
    let (tx, mut rx) = tokio::sync::mpsc::channel::<Job>(4);
    let mut status = ServerStatus::new();
    assert_eq!(submit(job(9), &tx, &mut status).unwrap().id, 9);
    assert_eq!(rx.try_recv().unwrap().id, 9);
    assert!(matches!(submit(job(9), &tx, &mut status), Err(PostJobError::IdInUse)));
    assert!(start_job(&mut status, &job(9)).is_some());
    assert!(matches!(submit(job(9), &tx, &mut status), Err(PostJobError::IdInUse)));
    assert!(finish_job(&mut status, 9));
    assert!(matches!(submit(job(9), &tx, &mut status), Err(PostJobError::IdInUse)));
    assert!(rx.try_recv().is_err());
    status.job_cleared(9);
    assert!(submit(job(9), &tx, &mut status).is_ok());
}

#[test]
fn job_with_two_tasks_under_one_identifier_is_refused() {
    let (tx, mut rx) = tokio::sync::mpsc::channel::<Job>(4);
    let mut status = ServerStatus::new();
    let task = |id: u128| Task { id, targets: Vec::new(), binary: Vec::new() };
    let twice = Job { id: 1, tasks: vec![task(5), task(6), task(5)], timeout_secs: 1 };
    assert!(!twice.has_distinct_task_ids());
    assert!(matches!(submit(twice, &tx, &mut status), Err(PostJobError::IdInUse)));
    assert_eq!(status.job_status(1), JobStatus::NotFound);
    assert!(rx.try_recv().is_err());
    let apart = Job { id: 1, tasks: vec![task(5), task(6), task(7)], timeout_secs: 1 };
    assert!(apart.has_distinct_task_ids());
    assert!(submit(apart, &tx, &mut status).is_ok());
    assert_eq!(status.job_status(1), JobStatus::InQueue);
}

#[test]
fn admitted_job_has_tasks_under_different_random_identifiers() {
    let (tx, _rx) = tokio::sync::mpsc::channel::<Job>(4);
    let mut status = ServerStatus::new();
    let mut two = desc();
    two.tasks.push(TaskDesc {
        run_on: vec![RunOn::ProbeSerials(vec![ProbeSerial("PROBE_SERIAL_2".into())])],
        binary_b64: "bm90X2NoZWNrZWQ=".into(),
    });
    let job = post_job(two, &tx, &mut status, &three_targets()).unwrap();
    assert!(job.has_distinct_task_ids());
    for id in [job.id, job.tasks[0].id, job.tasks[1].id] {
        assert_eq!((id >> 76) & 0xf, 4);
        assert_eq!((id >> 62) & 0x3, 2);
    }
}
