use embedded_ci::ident::{ProbeAlias, ProbeSerial, TargetGroup, TargetName};
use embedded_ci::job::{Job, JobDesc, TaskDesc};
use embedded_ci::selector::{RunOn, SelectorKind};
use embedded_ci::target::{Target, Targets};
use embedded_ci::validate::{
    check_coherency, decode_tasks, validate_tasks_coherency, DecodedTask, ValidationError,
    ValidationErrors,
};

fn target(n: u32, group: &str) -> Target {
    Target {
        probe_serial: ProbeSerial(format!("PROBE_SERIAL_{n}")),
        probe_alias: ProbeAlias(format!("PROBE_ALIAS_{n}")),
        target_name: TargetName(format!("TARGET_{n}")),
        groups: vec![TargetGroup(group.into())].into(),
    }
}

fn five_targets() -> Targets {
    vec![
        target(1, "GROUP_A"),
        target(2, "GROUP_A"),
        target(3, "GROUP_A"),
        target(4, "GROUP_B"),
        target(5, "GROUP_B"),
    ]
    .into()
}

fn task(run_on: Vec<RunOn>) -> TaskDesc {
    TaskDesc { run_on, binary_b64: "bm90X2NoZWNrZWQ=".into() }
}

fn serials(list: &[&str]) -> RunOn {
    RunOn::ProbeSerials(list.iter().map(|s| ProbeSerial(s.to_string())).collect())
}

fn errors_of(tasks: &[TaskDesc]) -> Vec<String> {
    match validate_tasks_coherency(tasks, &five_targets()) {
        Ok(_) => panic!("expected problems, found Ok"),
        Err(errors) => errors.errors().iter().map(|e| format!("{:?}", e)).collect(),
    }
}

#[test]
fn targets_of_a_task_keep_the_order_of_its_selectors() {
    let tasks = vec![task(vec![
        RunOn::Groups(vec![TargetGroup("GROUP_B".into())]),
        RunOn::Targets(vec![TargetName("TARGET_2".into())]),
        serials(&["PROBE_SERIAL_3", "PROBE_SERIAL_1"]),
    ])];
    let out = validate_tasks_coherency(&tasks, &five_targets()).unwrap();
    let found: Vec<&str> = out[0].targets.iter().map(|t| t.probe_serial.0.as_str()).collect();
    assert_eq!(
        found,
        vec!["PROBE_SERIAL_4", "PROBE_SERIAL_5", "PROBE_SERIAL_2", "PROBE_SERIAL_3", "PROBE_SERIAL_1"]
    );
    assert_eq!(out[0].binary, b"not_checked".to_vec());
}

#[test]
fn each_task_gets_its_own_targets_and_binary() {
    let mut second = task(vec![RunOn::ProbeAliases(vec![ProbeAlias("PROBE_ALIAS_5".into())])]);
    second.binary_b64 = "c2hvdWxkX3dvcms=".into();
    let tasks = vec![task(vec![serials(&["PROBE_SERIAL_1"])]), second];
    let out = validate_tasks_coherency(&tasks, &five_targets()).unwrap();
    assert_eq!(out.len(), 2);
    assert_eq!(out[0].targets, vec![target(1, "GROUP_A")]);
    assert_eq!(out[1].targets, vec![target(5, "GROUP_B")]);
    assert_eq!(out[1].binary, b"should_work".to_vec());
    assert_ne!(out[0].id, out[1].id);
}

#[test]
fn job_without_tasks_is_valid_and_empty() {
    let out = validate_tasks_coherency(&[], &five_targets()).unwrap();
    assert!(out.is_empty());
}

#[test]
fn selector_without_identifiers_chooses_no_target() {
    let tasks = vec![task(vec![serials(&[]), RunOn::Groups(vec![])])];
    let result = validate_tasks_coherency(&tasks, &five_targets());
    let expected = ValidationErrors::new(vec![ValidationError::NoTargetChosen {
        entry: "tasks.0.run_on".into(),
    }]);
    assert_eq!(result.unwrap_err(), expected);
}

#[test]
fn every_problem_is_reported_at_once() {
    let mut broken = task(vec![]);
    broken.binary_b64 = "ooops".into();
    let tasks = vec![
        task(vec![serials(&["PROBE_SERIAL_1", "NO_SUCH"])]),
        broken,
        task(vec![RunOn::Groups(vec![TargetGroup("GROUP_A".into())])]),
    ];
    let found = errors_of(&tasks);
    assert_eq!(found.len(), 4);
    assert!(found[0].starts_with("NoTargetChosen { entry: \"tasks.1.run_on\""), "{}", found[0]);
    assert!(found[1].starts_with("Base64DecodingFailed { entry: \"tasks.1.binary_b64\""), "{}", found[1]);
    assert!(
        found[2].starts_with("TargetNotAvailable { entry: \"NO_SUCH @ tasks.0.run_on.0.probe_serials.1\""),
        "{}",
        found[2]
    );
    assert!(found[3].starts_with("TargetIsNotUnique"), "{}", found[3]);
    assert!(found[3].contains("PROBE_SERIAL_1 @ tasks.0.run_on.0.probe_serials.0"));
    assert!(found[3].contains("GROUP_A @ tasks.2.run_on.0.groups.0"));
    assert!(!found[3].contains("PROBE_SERIAL_2"));
}

#[test]
fn paths_count_in_decimal() {
    let mut run_on: Vec<RunOn> = (0..12).map(|_| serials(&[])).collect();
    run_on[11] = RunOn::Targets((0..11).map(|_| TargetName("TARGET_1".into())).chain([TargetName("X".into())]).collect());
    let mut tasks: Vec<TaskDesc> = (0..10).map(|n| task(vec![serials(&[&format!("PROBE_SERIAL_{}", n % 5 + 1)])])).collect();
    tasks.push(task(run_on));
    let found = errors_of(&tasks);
    assert!(found.iter().any(|e| e.contains("\"X @ tasks.10.run_on.11.targets.11\"")), "{:?}", found);
}

#[test]
fn validation_gives_the_same_problems_every_time() {
    let tasks = vec![
        task(vec![RunOn::Groups(vec![TargetGroup("GROUP_A".into()), TargetGroup("GROUP_A".into())])]),
        task(vec![serials(&["PROBE_SERIAL_9"])]),
    ];
    let first = validate_tasks_coherency(&tasks, &five_targets()).unwrap_err();
    let second = validate_tasks_coherency(&tasks, &five_targets()).unwrap_err();
    assert_eq!(first, second);
    assert_eq!(format!("{:?}", first), format!("{:?}", second));
    assert_eq!(first.len(), 4);
}

#[test]
fn problems_compare_equal_in_any_order() {
    let a = ValidationErrors::new(vec![
        ValidationError::NoTargetChosen { entry: "tasks.0.run_on".into() },
        ValidationError::TargetNotAvailable { entry: "x".into() },
    ]);
    let b = ValidationErrors::new(vec![
        ValidationError::TargetNotAvailable { entry: "x".into() },
        ValidationError::NoTargetChosen { entry: "tasks.0.run_on".into() },
    ]);
    assert_eq!(a, b);
    assert_ne!(a, ValidationErrors::new(vec![ValidationError::TargetNotAvailable { entry: "x".into() }]));
    assert!(ValidationErrors::default().is_empty());
}

#[test]
fn check_takes_the_decoding_as_it_is_given() {
    let desc = task(vec![serials(&["PROBE_SERIAL_2"])]);
    let decoded = vec![DecodedTask { desc: &desc, binary: Ok(vec![1, 2, 3]) }];
    let out = check_coherency(&decoded, &five_targets()).unwrap();
    assert_eq!(out[0].binary, vec![1, 2, 3]);
    let refused = vec![DecodedTask { desc: &desc, binary: Err("no good".into()) }];
    let expected = ValidationErrors::new(vec![ValidationError::Base64DecodingFailed {
        entry: "tasks.0.binary_b64".into(),
        error_details: "no good".into(),
    }]);
    assert_eq!(check_coherency(&refused, &five_targets()).unwrap_err(), expected);
}

#[test]
fn binaries_are_decoded_from_base64() {
    let descs = vec![task(vec![]), TaskDesc { run_on: vec![], binary_b64: "AAEC/w==".into() }, TaskDesc { run_on: vec![], binary_b64: "!".into() }];
    let decoded = decode_tasks(&descs);
    assert_eq!(decoded[0].binary, Ok(b"not_checked".to_vec()));
    assert_eq!(decoded[1].binary, Ok(vec![0, 1, 2, 255]));
    assert_eq!(decoded[2].binary, Err(base64::decode("!").unwrap_err().to_string()));
}

#[test]
fn job_takes_the_timeout_of_its_description() {
    let desc = JobDesc { tasks: vec![task(vec![serials(&["PROBE_SERIAL_1"])])], timeout_secs: u32::MAX };
    let job = Job::from_desc(desc, &five_targets()).unwrap();
    assert_eq!(job.timeout_secs, u32::MAX as u64);
    assert_eq!(job.tasks.len(), 1);
    let copy = job.clone();
    assert_eq!(copy.id, job.id);
    assert_eq!(copy.tasks[0].targets, job.tasks[0].targets);
}

#[test]
fn invalid_description_gives_no_job() {
    let desc = JobDesc { tasks: vec![task(vec![])], timeout_secs: 1 };
    assert_eq!(Job::from_desc(desc, &five_targets()).unwrap_err().len(), 1);
}

#[test]
fn problems_are_reported_in_words() {
    assert_eq!(
        ValidationError::TargetNotAvailable { entry: "E".into() }.message(),
        "Cannot resolve the target for an entry: E"
    );
    assert_eq!(
        ValidationError::NoTargetChosen { entry: "E".into() }.message(),
        "Given task does not define any targets"
    );
    assert_eq!(
        ValidationError::Base64DecodingFailed { entry: "E".into(), error_details: "D".into() }.message(),
        "Decoding of base64 encoded binary failed for an entry: E: D"
    );
    let twice = ValidationError::TargetIsNotUnique {
        target: target(2, "GROUP_A"),
        entries: vec!["a".to_string(), "b".to_string(), "c".to_string()].into(),
    };
    assert_eq!(
        twice.message(),
        "Multiple entries resolve to the same target (probe serial: 'PROBE_SERIAL_2'): a, b, c. Must be unique"
    );
    let all = ValidationErrors::new(vec![twice, ValidationError::NoTargetChosen { entry: "E".into() }]);
    assert_eq!(
        all.message(),
        "Validation failed: \n\nMultiple entries resolve to the same target (probe serial: 'PROBE_SERIAL_2'): a, b, c. Must be unique\n\nGiven task does not define any targets"
    );
    assert_eq!(ValidationErrors::new(vec![]).message(), "Validation failed: ");
}

#[test]
fn selectors_know_their_kind_and_length() {
    let groups = RunOn::Groups(vec![TargetGroup("a".into()), TargetGroup("b".into())]);
    assert_eq!(groups.kind(), SelectorKind::Groups);
    assert_eq!(groups.len(), 2);
    assert_eq!(SelectorKind::ProbeSerials.name(), "probe_serials");
    assert_eq!(SelectorKind::ProbeAliases.name(), "probe_aliases");
    assert_eq!(SelectorKind::Targets.name(), "targets");
    assert_eq!(SelectorKind::Groups.name(), "groups");
}
