use embedded_ci::elf::{Symbols, VectorTable};
use embedded_ci::job::RunResultDetails;
use embedded_ci::machine::{
    CoreState, FailureKind, Image, Phase, ProbeAction, ProbeEvent, ProbeFailure, RunState,
    RunnerError, Verdict,
};
use embedded_ci::runner::{make_fault_report, outcome, run_details};

fn image(from_ram: bool) -> Image {
    Image {
        from_ram,
        symbols: Symbols { main: 0x0800_0150, rtt: 0x2000_0010 },
        vector_table: VectorTable {
            start: if from_ram { 0x2000_0000 } else { 0x0800_0000 },
            stack_pointer: 0x2000_8000,
            reset: 0x0800_0101,
            hardfault: 0x0800_0203,
        },
    }
}

fn failure(kind: FailureKind) -> ProbeEvent {
    ProbeEvent::Failed(ProbeFailure { kind, text: "what the probe said".into() })
}

struct Drive {
    state: RunState,
    image: Image,
    actions: Vec<ProbeAction>,
}

impl Drive {
    fn new(from_ram: bool) -> Self {
        let state = RunState::new();
        let image = image(from_ram);
        let first = state.action(&image, None);
        Drive { state, image, actions: vec![first] }
    }

    fn answer(&mut self, event: ProbeEvent) -> ProbeAction {
        let action = self.state.step(&self.image, 2, None, event);
        self.actions.push(action);
        action
    }

    fn done(&mut self, times: usize) {
        for _ in 0..times {
            self.answer(ProbeEvent::Done);
        }
    }

    fn to_barrier(&mut self) {
        self.done(4);
        if self.image.from_ram {
            self.answer(ProbeEvent::Number(0xabcd));
            self.done(2);
            self.answer(ProbeEvent::Number(6));
            self.done(5);
        } else {
            self.done(1);
            self.answer(ProbeEvent::Number(6));
            self.done(8);
        }
    }

    fn to_status(&mut self) {
        self.to_barrier();
        self.done(3);
        self.answer(ProbeEvent::Bytes(b"hel".to_vec()));
        self.answer(ProbeEvent::Halted { halted: true, elapsed_nanos: 5 });
        self.answer(ProbeEvent::Bytes(b"lo\n".to_vec()));
    }

    fn verdict(self) -> (Option<Verdict>, Vec<u8>) {
        self.state.into_parts()
    }
}

#[test]
fn flash_image_is_set_up_step_by_step() {
    let mut drive = Drive::new(false);
    drive.to_barrier();
    assert_eq!(
        drive.actions,
        vec![
            ProbeAction::OpenProbe { speed_khz: None },
            ProbeAction::Attach,
            ProbeAction::ResetAndHalt { timeout_ms: 3000 },
            ProbeAction::Flash,
            ProbeAction::ResetAndHalt { timeout_ms: 3000 },
            ProbeAction::QueryBreakpointUnits,
            ProbeAction::WriteWord32 { address: 0x2000_0010, value: 0x1234_1234 },
            ProbeAction::SetHwBreakpoint { address: 0x0800_0150 },
            ProbeAction::Run,
            ProbeAction::WaitForHalt { timeout_ms: 5000 },
            ProbeAction::WriteWord32 { address: 0x2000_0010 + 44, value: 2 },
            ProbeAction::ClearHwBreakpoint { address: 0x0800_0150 },
            ProbeAction::SetHwBreakpoint { address: 0x0800_0202 },
            ProbeAction::Run,
            ProbeAction::WaitAtBarrier,
        ]
    );
    assert_eq!(drive.state.phase(), Phase::Barrier);
}

#[test]
fn ram_image_is_set_up_step_by_step() {
    let mut drive = Drive::new(true);
    drive.to_barrier();
    assert_eq!(
        drive.actions,
        vec![
            ProbeAction::OpenProbe { speed_khz: None },
            ProbeAction::Attach,
            ProbeAction::ResetAndHalt { timeout_ms: 3000 },
            ProbeAction::Flash,
            ProbeAction::ReadWord32 { address: 0x2000_0000 },
            ProbeAction::WriteWord32 { address: 0x2000_0000, value: 0xabcd },
            ProbeAction::ResetAndHalt { timeout_ms: 3000 },
            ProbeAction::QueryBreakpointUnits,
            ProbeAction::WriteCoreReg { register: 15, value: 0x0800_0100 },
            ProbeAction::WriteCoreReg { register: 13, value: 0x2000_8000 },
            ProbeAction::WriteWord32 { address: 0xE000_ED08, value: 0x2000_0000 },
            ProbeAction::WriteBreakpointOpcode { address: 0x0800_0202 },
            ProbeAction::Run,
            ProbeAction::WaitAtBarrier,
        ]
    );
}

#[test]
fn attach_is_tried_again_under_reset() {
    let mut drive = Drive::new(false);
    drive.done(1);
    assert_eq!(drive.answer(failure(FailureKind::Probe)), ProbeAction::OpenProbe { speed_khz: None });
    assert_eq!(drive.answer(ProbeEvent::Done), ProbeAction::AttachUnderReset);
    assert_eq!(drive.answer(ProbeEvent::Done), ProbeAction::ResetAndHalt { timeout_ms: 3000 });
}

#[test]
fn attach_that_fails_twice_ends_the_run_and_releases_the_barrier() {
    let mut drive = Drive::new(false);
    drive.done(1);
    drive.answer(failure(FailureKind::Probe));
    drive.done(1);
    assert_eq!(drive.answer(failure(FailureKind::Probe)), ProbeAction::ReleaseBarrier);
    assert!(!drive.state.is_finished());
    assert_eq!(drive.answer(ProbeEvent::Done), ProbeAction::Finish);
    assert!(drive.state.is_finished());
    match drive.verdict().0 {
        Some(Verdict::Setup(error)) => assert_eq!(
            error.message(),
            "Unable to attach to the target, both normal and attach under reset failed"
        ),
        other => panic!("expected a failed setup, found {:?}", other),
    }
}

fn setup_failure(from_ram: bool, done: usize, event: ProbeEvent) -> String {
    let mut drive = Drive::new(from_ram);
    drive.done(done);
    assert_eq!(drive.answer(event), ProbeAction::ReleaseBarrier);
    assert_eq!(drive.answer(ProbeEvent::Done), ProbeAction::Finish);
    match drive.verdict().0 {
        Some(Verdict::Setup(error)) => error.message(),
        other => panic!("expected a failed setup, found {:?}", other),
    }
}

#[test]
fn probe_that_is_not_found_ends_the_run() {
    assert_eq!(
        setup_failure(false, 0, failure(FailureKind::DebugProbe)),
        "A debug probe error occurred"
    );
}

#[test]
fn failures_of_flashing_are_told_apart() {
    assert_eq!(setup_failure(false, 3, failure(FailureKind::Flash)), "A flashing error occurred");
    assert_eq!(
        setup_failure(false, 3, failure(FailureKind::FileDownload)),
        "A file download error occurred"
    );
    assert_eq!(setup_failure(false, 2, failure(FailureKind::Probe)), "A runner error occurred");
}

#[test]
fn target_without_breakpoint_units_ends_the_run() {
    assert_eq!(
        setup_failure(false, 5, ProbeEvent::Number(0)),
        "The target does not have any HW breakpoint units?! Aborting."
    );
}

#[test]
fn failure_on_the_way_to_main_is_reported_as_such() {
    let mut drive = Drive::new(false);
    drive.done(5);
    drive.answer(ProbeEvent::Number(1));
    drive.done(3);
    assert_eq!(drive.answer(failure(FailureKind::Probe)), ProbeAction::ReleaseBarrier);
    drive.done(1);
    match drive.verdict().0 {
        Some(Verdict::Setup(error)) => {
            assert!(matches!(error, RunnerError::UnableToReachMain));
            assert_eq!(error.message(), "The app started, but did not reach to main");
        }
        other => panic!("expected a failed setup, found {:?}", other),
    }
}

#[test]
fn answer_that_does_not_fit_ends_the_run() {
    assert_eq!(
        setup_failure(false, 1, ProbeEvent::Bytes(vec![1])),
        "Unexpected answer from the probe"
    );
}

#[test]
fn control_block_is_looked_for_until_three_seconds_are_over() {
    let mut drive = Drive::new(false);
    drive.to_barrier();
    assert_eq!(drive.answer(ProbeEvent::Done), ProbeAction::ScanRtt { address: 0x2000_0010 });
    assert_eq!(drive.answer(ProbeEvent::NotFound), ProbeAction::Sleep { millis: 10 });
    assert_eq!(
        drive.answer(ProbeEvent::Elapsed { nanos: 3_000_000_000 }),
        ProbeAction::ScanRtt { address: 0x2000_0010 }
    );
    drive.answer(ProbeEvent::NotFound);
    assert_eq!(drive.answer(ProbeEvent::Elapsed { nanos: 3_000_000_001 }), ProbeAction::Finish);
    match drive.verdict().0 {
        Some(Verdict::Failed(error)) => assert_eq!(error.message(), "An RTT error occurred"),
        other => panic!("expected a failure, found {:?}", other),
    }
}

#[test]
fn missing_up_channel_ends_the_run() {
    let mut drive = Drive::new(false);
    drive.to_barrier();
    drive.done(2);
    assert_eq!(drive.actions.last(), Some(&ProbeAction::OpenUpChannel { number: 0 }));
    assert_eq!(drive.answer(ProbeEvent::NotFound), ProbeAction::Finish);
    match drive.verdict().0 {
        Some(Verdict::Failed(error)) => assert_eq!(error.message(), "Could not open the RTT channel"),
        other => panic!("expected a failure, found {:?}", other),
    }
}

#[test]
fn log_is_drained_until_the_core_halts() {
    let mut drive = Drive::new(false);
    drive.to_barrier();
    drive.done(3);
    assert_eq!(drive.actions.last(), Some(&ProbeAction::ReadRtt { capacity: 16384 }));
    assert_eq!(drive.answer(ProbeEvent::Bytes(b"ab".to_vec())), ProbeAction::QueryHalted);
    assert_eq!(
        drive.answer(ProbeEvent::Halted { halted: false, elapsed_nanos: 2_000_000_000 }),
        ProbeAction::ReadRtt { capacity: 16384 }
    );
    drive.answer(ProbeEvent::Bytes(b"cd".to_vec()));
    assert_eq!(
        drive.answer(ProbeEvent::Halted { halted: true, elapsed_nanos: 9_000_000_000 }),
        ProbeAction::ReadRtt { capacity: 16384 }
    );
    assert_eq!(drive.answer(ProbeEvent::Bytes(b"ef".to_vec())), ProbeAction::QueryStatus);
    assert_eq!(
        drive.answer(ProbeEvent::Status(CoreState::HaltedAtBreakpoint)),
        ProbeAction::ReadCoreReg { register: 16 }
    );
    assert_eq!(drive.answer(ProbeEvent::Number(0x0100_0000)), ProbeAction::Finish);
    let (verdict, buffer) = drive.verdict();
    assert!(matches!(verdict, Some(Verdict::Passed)));
    assert_eq!(buffer, b"abcdef".to_vec());
}

#[test]
fn time_runs_out_when_the_core_does_not_halt() {
    let mut drive = Drive::new(false);
    drive.to_barrier();
    drive.done(3);
    drive.answer(ProbeEvent::Bytes(b"par".to_vec()));
    assert_eq!(
        drive.answer(ProbeEvent::Halted { halted: false, elapsed_nanos: 2_000_000_001 }),
        ProbeAction::Finish
    );
    let (verdict, buffer) = drive.verdict();
    assert!(matches!(verdict, Some(Verdict::Timeout)));
    assert_eq!(buffer, b"par".to_vec());
}

#[test]
fn failure_of_the_last_read_is_reported_in_the_words_of_the_probe() {
    let mut drive = Drive::new(false);
    drive.to_barrier();
    drive.done(3);
    drive.answer(ProbeEvent::Bytes(vec![]));
    drive.answer(ProbeEvent::Halted { halted: true, elapsed_nanos: 0 });
    assert_eq!(drive.answer(failure(FailureKind::Rtt)), ProbeAction::Finish);
    match drive.verdict().0 {
        Some(Verdict::Failed(error)) => assert_eq!(error.message(), "what the probe said"),
        other => panic!("expected a failure, found {:?}", other),
    }
}

fn classified(status: CoreState, numbers: &[u32]) -> (Option<Verdict>, Vec<ProbeAction>) {
    let mut drive = Drive::new(false);
    drive.to_status();
    let from = drive.actions.len();
    drive.answer(ProbeEvent::Status(status));
    for n in numbers {
        drive.answer(ProbeEvent::Number(*n));
    }
    assert!(drive.state.is_finished());
    let asked = drive.actions[from..].to_vec();
    (drive.verdict().0, asked)
}

#[test]
fn halt_outside_the_hardfault_handler_passes() {
    let (verdict, asked) = classified(CoreState::HaltedAtBreakpoint, &[0x6100_0000]);
    assert!(matches!(verdict, Some(Verdict::Passed)));
    assert_eq!(asked, vec![ProbeAction::ReadCoreReg { register: 16 }, ProbeAction::Finish]);
}

#[test]
fn hardfault_that_was_not_escalated_reports_the_link_register() {
    let (verdict, asked) = classified(CoreState::HaltedAtBreakpoint, &[0x0100_0003, 0xffff_fff9, 0x2]);
    assert!(matches!(
        verdict,
        Some(Verdict::Hardfault { lr: 0xffff_fff9, cfsr: None, bfar: None })
    ));
    assert_eq!(
        asked,
        vec![
            ProbeAction::ReadCoreReg { register: 16 },
            ProbeAction::ReadCoreReg { register: 14 },
            ProbeAction::ReadWord32 { address: 0xE000_ED2C },
            ProbeAction::Finish,
        ]
    );
}

#[test]
fn escalated_hardfault_reports_the_fault_status() {
    let (verdict, asked) =
        classified(CoreState::HaltedAtBreakpoint, &[3, 0xffff_fff9, 0x4000_0000, 0x0001_0400]);
    assert!(matches!(
        verdict,
        Some(Verdict::Hardfault { lr: 0xffff_fff9, cfsr: Some(0x0001_0400), bfar: None })
    ));
    assert_eq!(asked[3], ProbeAction::ReadWord32 { address: 0xE000_ED28 });
    assert_eq!(asked.len(), 5);
}

#[test]
fn bus_fault_with_a_valid_address_reports_the_address() {
    let (verdict, asked) = classified(
        CoreState::HaltedAtBreakpoint,
        &[3, 0xffff_fff9, 0x4000_0000, 0x0000_8200, 0x6000_0000],
    );
    assert!(matches!(
        verdict,
        Some(Verdict::Hardfault { lr: 0xffff_fff9, cfsr: Some(0x0000_8200), bfar: Some(0x6000_0000) })
    ));
    assert_eq!(asked[4], ProbeAction::ReadWord32 { address: 0xE000_ED38 });
}

#[test]
fn other_states_of_the_core_are_told_apart() {
    assert!(matches!(
        classified(CoreState::HaltedOther("Step".into()), &[]).0,
        Some(Verdict::HaltedOther(reason)) if reason == "Step"
    ));
    assert!(matches!(classified(CoreState::LockedUp, &[]).0, Some(Verdict::LockedUp)));
    assert!(matches!(classified(CoreState::Sleeping, &[]).0, Some(Verdict::Sleeping)));
    assert!(matches!(classified(CoreState::Unknown, &[]).0, Some(Verdict::Unknown)));
    assert!(matches!(classified(CoreState::Running, &[]).0, Some(Verdict::Passed)));
}

#[test]
fn failure_while_classifying_is_reported_after_the_log() {
    let mut drive = Drive::new(false);
    drive.to_status();
    drive.answer(ProbeEvent::Status(CoreState::HaltedAtBreakpoint));
    assert_eq!(drive.answer(failure(FailureKind::Probe)), ProbeAction::Finish);
    let verdict = drive.verdict().0.unwrap();
    assert!(matches!(verdict, Verdict::FailedLate(RunnerError::ProbeRs)));
    let late = outcome(verdict.clone(), Ok("log".into())).unwrap_err();
    assert_eq!(late.message(), "A runner error occurred");
    let undecoded = outcome(verdict, Err("no text".into())).unwrap_err();
    assert_eq!(undecoded.message(), "no text");
}

#[test]
fn finished_run_stays_finished() {
    let mut drive = Drive::new(false);
    drive.answer(failure(FailureKind::DebugProbe));
    drive.done(1);
    assert_eq!(drive.answer(ProbeEvent::Number(3)), ProbeAction::Finish);
    assert_eq!(drive.answer(failure(FailureKind::Flash)), ProbeAction::Finish);
    assert!(matches!(drive.verdict().0, Some(Verdict::Setup(RunnerError::DebugProbeError))));
}

fn failed(verdict: Verdict, log: Result<String, String>) -> String {
    outcome(verdict, log).unwrap_err().message()
}

#[test]
fn passed_run_reports_its_log() {
    assert_eq!(outcome(Verdict::Passed, Ok("a\nb\n".into())).unwrap(), "a\nb\n");
    assert_eq!(failed(Verdict::Passed, Err("bad text".into())), "bad text");
}

#[test]
fn timeout_reports_what_there_is_of_the_log() {
    assert_eq!(
        failed(Verdict::Timeout, Ok("so far\n".into())),
        "The firmware reached timeout, partial log:\nso far\n"
    );
    assert_eq!(
        failed(Verdict::Timeout, Err("bad text".into())),
        "The firmware reached timeout, partial log:\n"
    );
}

#[test]
fn failures_before_the_log_keep_their_error() {
    assert_eq!(
        failed(Verdict::Setup(RunnerError::FlashError), Err("bad text".into())),
        "A flashing error occurred"
    );
    assert_eq!(
        failed(Verdict::Failed(RunnerError::ElfError("x".into())), Ok("log".into())),
        "ELF file error: x"
    );
}

#[test]
fn states_of_the_core_are_reported_with_the_log() {
    assert_eq!(failed(Verdict::LockedUp, Ok("L".into())), "Core locked up, partial log:\nL");
    assert_eq!(failed(Verdict::Sleeping, Ok("L".into())), "Core sleeping, partial log:\nL");
    assert_eq!(failed(Verdict::Unknown, Ok("L".into())), "Core status unknown, partial log:\nL");
    assert_eq!(
        failed(Verdict::HaltedOther("Exception".into()), Ok("L".into())),
        "Core halted for unknown reason: Exception"
    );
}

#[test]
fn hardfault_is_reported_with_the_link_register_in_eight_digits() {
    assert_eq!(
        failed(Verdict::Hardfault { lr: 0xfff9, cfsr: None, bfar: None }, Ok("log\n".into())),
        "Core halted for hardfault (LR = 0x0000fff9), partial log:\nlog\n"
    );
}

#[test]
fn escalated_hardfault_is_reported_with_every_status_that_is_set() {
    assert_eq!(
        failed(
            Verdict::Hardfault { lr: 0xffff_fff9, cfsr: Some(0x0100_8201), bfar: Some(0x1234) },
            Ok("log\n".into())
        ),
        "Core halted for hardfault\n  LR = 0xfffffff9\n  MemFault (0x01)\n  BusFault (0x82)\n    Offending address = 0x00001234\n  UsageFault (0x0100)\n\nPartial log:\nlog\n"
    );
}

#[test]
fn fault_report_leaves_out_what_is_zero() {
    assert_eq!(make_fault_report(5, 0, None), "  LR = 0x05\n");
    assert_eq!(make_fault_report(0x123, 0x0002_0000, None), "  LR = 0x123\n  UsageFault (0x0002)\n");
    assert_eq!(make_fault_report(0, 0x0000_0400, None), "  LR = 0x00\n  BusFault (0x04)\n");
    assert_eq!(make_fault_report(0, 0x0000_00ff, Some(1)), "  LR = 0x00\n  MemFault (0xff)\n");
}

#[test]
fn outcome_is_stored_as_lines_or_as_error() {
    match run_details(Ok("INFO  a\nWARN  b\n\nlast".into())) {
        RunResultDetails::Success { logs } => assert_eq!(logs, vec!["INFO  a", "WARN  b", "", "last"]),
        other => panic!("expected Success, found {:?}", other),
    }
    match run_details(Err(RunnerError::ProbeRsRtt)) {
        RunResultDetails::Failure { error } => assert_eq!(error, "An RTT error occurred"),
        other => panic!("expected Failure, found {:?}", other),
    }
}
