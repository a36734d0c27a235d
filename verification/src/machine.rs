//! The run of one image on one target, as a sequence of orders to the probe
//! and of decisions on its answers.
//!
//! The machine orders one action at a time; whoever drives the probe carries
//! it out and reports what came of it, and the machine decides what comes
//! next. Up to the barrier the run is set up: the probe is claimed, the
//! target attached, the image flashed, the entry point reached and the exit
//! armed. A run that fails before the barrier still releases it, so that the
//! other runs of the job are not held up. After the barrier the log is
//! drained until the core halts or time is up, and the halt is classified.

use crate::elf::{without_thumb_bit, Symbols, VectorTable};
use vstd::prelude::*;
use vstd::string::StringExecFns;

verus! {

/// Address of the vector table offset register.
pub const VTOR: u64 = 0xE000_ED08;

/// Address of the hardfault status register.
pub const HFSR: u64 = 0xE000_ED2C;

/// Address of the configurable fault status register.
pub const CFSR: u64 = 0xE000_ED28;

/// Address of the bus fault address register.
pub const BFAR: u64 = 0xE000_ED38;

/// Number of the stack pointer among the core registers.
pub const SP: u16 = 13;

/// Number of the link register among the core registers.
pub const LR: u16 = 14;

/// Number of the program counter among the core registers.
pub const PC: u16 = 15;

/// Number of the program status register among the core registers.
pub const PSR: u16 = 16;

/// What is written over the first word of the control block of the debug
/// transport, so that the firmware sets the block up anew.
pub const RTT_RESET: u32 = 0x1234_1234;

/// Offset of the flags of the first up channel in the control block.
pub const RTT_FLAGS_OFFSET: u64 = 44;

/// The flags that make the firmware wait while the channel is full.
pub const RTT_BLOCK_IF_FULL: u32 = 2;

/// Time given to a reset and halt, in milliseconds.
pub const RESET_TIMEOUT_MS: u64 = 3000;

/// Time given to the firmware to reach `main`, in milliseconds.
pub const MAIN_TIMEOUT_MS: u64 = 5000;

/// Pause between two scans for the control block, in milliseconds.
pub const SCAN_PAUSE_MS: u64 = 10;

/// Time after which the scan for the control block is given up, in
/// nanoseconds.
pub const SCAN_LIMIT_NANOS: u128 = 3_000_000_000;

/// Size of the buffer for one read from the debug transport.
pub const READ_CAPACITY: usize = 16384;

/// Number of the hardfault among the exceptions.
pub const HARDFAULT_ISR: u32 = 3;

/// Where a run stands.
#[derive(Debug, Clone, Copy, PartialEq, Eq, Structural)]
pub enum Phase {
    ClaimProbe,
    Attach,
    ReclaimProbe,
    AttachUnderReset,
    FirstReset,
    Flash,
    PatchRead,
    PatchWrite,
    SecondReset,
    BreakpointUnits,
    WritePc,
    WriteSp,
    WriteVtor,
    ResetRtt,
    BreakAtMain,
    RunToMain,
    WaitAtMain,
    SetRttFlags,
    ClearMainBreak,
    ArmExit,
    Resume,
    Barrier,
    ScanRtt,
    PauseScan,
    OpenChannel,
    Drain,
    CheckHalted,
    LastDrain,
    ReadStatus,
    ReadPsr,
    ReadLr,
    ReadHfsr,
    ReadCfsr,
    ReadBfar,
    ReleaseBarrier,
    Finished,
}

/// The place of a phase in the course of a run.
pub open spec fn rank(phase: Phase) -> nat {
    match phase {
        Phase::ClaimProbe => 0,
        Phase::Attach => 1,
        Phase::ReclaimProbe => 2,
        Phase::AttachUnderReset => 3,
        Phase::FirstReset => 4,
        Phase::Flash => 5,
        Phase::PatchRead => 6,
        Phase::PatchWrite => 7,
        Phase::SecondReset => 8,
        Phase::BreakpointUnits => 9,
        Phase::WritePc => 10,
        Phase::WriteSp => 11,
        Phase::WriteVtor => 12,
        Phase::ResetRtt => 13,
        Phase::BreakAtMain => 14,
        Phase::RunToMain => 15,
        Phase::WaitAtMain => 16,
        Phase::SetRttFlags => 17,
        Phase::ClearMainBreak => 18,
        Phase::ArmExit => 19,
        Phase::Resume => 20,
        Phase::Barrier => 21,
        Phase::ScanRtt => 22,
        Phase::PauseScan => 23,
        Phase::OpenChannel => 24,
        Phase::Drain => 25,
        Phase::CheckHalted => 26,
        Phase::LastDrain => 27,
        Phase::ReadStatus => 28,
        Phase::ReadPsr => 29,
        Phase::ReadLr => 30,
        Phase::ReadHfsr => 31,
        Phase::ReadCfsr => 32,
        Phase::ReadBfar => 33,
        Phase::ReleaseBarrier => 34,
        Phase::Finished => 35,
    }
}

/// The run is being set up and has not come to the barrier.
pub open spec fn before_barrier(phase: Phase) -> bool {
    rank(phase) < rank(Phase::Barrier)
}

/// The log has been drained and the halt is being classified.
pub open spec fn classifying(phase: Phase) -> bool {
    rank(Phase::ReadStatus) <= rank(phase) <= rank(Phase::ReadBfar)
}

/// The entry point is being reached.
pub open spec fn reaching_main(phase: Phase) -> bool {
    rank(Phase::WritePc) <= rank(phase) <= rank(Phase::WaitAtMain)
}

/// What of an image steers its run.
#[derive(Debug, Clone, Copy, PartialEq, Eq, Structural)]
pub struct Image {
    /// Whether the image lives in RAM.
    pub from_ram: bool,
    /// Where `main` and the control block of the debug transport are.
    pub symbols: Symbols,
    /// What the vector table holds.
    pub vector_table: VectorTable,
}

/// What the machine orders.
#[derive(Debug, Clone, Copy, PartialEq, Eq)]
pub enum ProbeAction {
    /// Under the lock on the list of probes: find the probe by its serial,
    /// open it and, where a speed is given, set it.
    OpenProbe { speed_khz: Option<u32> },
    /// Attach to the target.
    Attach,
    /// Attach to the target while it is held in reset.
    AttachUnderReset,
    /// Reset the core and halt it.
    ResetAndHalt { timeout_ms: u64 },
    /// Download the image, verify what was written and keep what the image
    /// does not cover.
    Flash,
    /// Read a word of memory; answered by a number.
    ReadWord32 { address: u64 },
    /// Write a word of memory.
    WriteWord32 { address: u64, value: u32 },
    /// Ask how many hardware breakpoints are free; answered by a number.
    QueryBreakpointUnits,
    /// Write a core register.
    WriteCoreReg { register: u16, value: u32 },
    /// Read a core register; answered by a number.
    ReadCoreReg { register: u16 },
    /// Set a hardware breakpoint.
    SetHwBreakpoint { address: u64 },
    /// Clear a hardware breakpoint.
    ClearHwBreakpoint { address: u64 },
    /// Write the breakpoint instruction, the octets `00 BE`, at an address.
    WriteBreakpointOpcode { address: u64 },
    /// Let the core run.
    Run,
    /// Wait until the core has halted.
    WaitForHalt { timeout_ms: u64 },
    /// Signal the barrier of the job and wait until every run has.
    WaitAtBarrier,
    /// Signal the barrier of the job without waiting.
    ReleaseBarrier,
    /// Look for the control block of the debug transport at an address;
    /// answered as done, or as not found.
    ScanRtt { address: u32 },
    /// Wait; answered by the time since the first scan.
    Sleep { millis: u64 },
    /// Take an up channel of the debug transport; answered as done, or as
    /// not found. The time of the drain counts from here.
    OpenUpChannel { number: usize },
    /// Read from the up channel; answered by octets.
    ReadRtt { capacity: usize },
    /// Ask whether the core has halted; answered with the time since the
    /// channel was taken.
    QueryHalted,
    /// Ask for the status of the core.
    QueryStatus,
    /// Nothing more: the run is over.
    Finish,
}

/// The class of an error of the probe.
#[derive(Debug, Clone, Copy, PartialEq, Eq, Structural)]
pub enum FailureKind {
    /// Flashing failed.
    Flash,
    /// The image could not be laid out for flashing.
    FileDownload,
    /// The probe itself failed, or was not found.
    DebugProbe,
    /// The session with the target failed.
    Probe,
    /// The debug transport failed.
    Rtt,
}

/// Mathematical model of a [`ProbeFailure`].
pub struct ProbeFailureView {
    pub kind: FailureKind,
    pub text: Seq<char>,
}

/// An error of the probe: its class and its own words.
#[derive(Debug, Clone)]
pub struct ProbeFailure {
    pub kind: FailureKind,
    pub text: String,
}

impl View for ProbeFailure {
    type V = ProbeFailureView;

    open spec fn view(&self) -> ProbeFailureView {
        ProbeFailureView { kind: self.kind, text: self.text@ }
    }
}

/// Mathematical model of a [`CoreState`].
pub enum CoreStateView {
    HaltedAtBreakpoint,
    HaltedOther(Seq<char>),
    LockedUp,
    Sleeping,
    Unknown,
    Running,
}

/// The status of a core.
#[derive(Debug, Clone)]
pub enum CoreState {
    /// Halted at a breakpoint.
    HaltedAtBreakpoint,
    /// Halted for another reason, given in words.
    HaltedOther(String),
    /// Locked up.
    LockedUp,
    /// Sleeping.
    Sleeping,
    /// Not known.
    Unknown,
    /// Running.
    Running,
}

impl View for CoreState {
    type V = CoreStateView;

    open spec fn view(&self) -> CoreStateView {
        match self {
            CoreState::HaltedAtBreakpoint => CoreStateView::HaltedAtBreakpoint,
            CoreState::HaltedOther(reason) => CoreStateView::HaltedOther(reason@),
            CoreState::LockedUp => CoreStateView::LockedUp,
            CoreState::Sleeping => CoreStateView::Sleeping,
            CoreState::Unknown => CoreStateView::Unknown,
            CoreState::Running => CoreStateView::Running,
        }
    }
}

/// Mathematical model of a [`ProbeEvent`].
pub enum ProbeEventView {
    Done,
    Failed(ProbeFailureView),
    Number(u32),
    Bytes(Seq<u8>),
    Halted { halted: bool, elapsed_nanos: u128 },
    Elapsed { nanos: u128 },
    NotFound,
    Status(CoreStateView),
}

/// What came of an action.
#[derive(Debug, Clone)]
pub enum ProbeEvent {
    /// The action was carried out.
    Done,
    /// The action failed.
    Failed(ProbeFailure),
    /// The number asked for.
    Number(u32),
    /// The octets read.
    Bytes(Vec<u8>),
    /// Whether the core has halted, and the time since the channel was
    /// taken.
    Halted { halted: bool, elapsed_nanos: u128 },
    /// The wait is over; the time since the first scan.
    Elapsed { nanos: u128 },
    /// What was looked for is not there.
    NotFound,
    /// The status of the core.
    Status(CoreState),
}

impl View for ProbeEvent {
    type V = ProbeEventView;

    open spec fn view(&self) -> ProbeEventView {
        match self {
            ProbeEvent::Done => ProbeEventView::Done,
            ProbeEvent::Failed(f) => ProbeEventView::Failed(f@),
            ProbeEvent::Number(n) => ProbeEventView::Number(*n),
            ProbeEvent::Bytes(b) => ProbeEventView::Bytes(b@),
            ProbeEvent::Halted { halted, elapsed_nanos } => ProbeEventView::Halted {
                halted: *halted,
                elapsed_nanos: *elapsed_nanos,
            },
            ProbeEvent::Elapsed { nanos } => ProbeEventView::Elapsed { nanos: *nanos },
            ProbeEvent::NotFound => ProbeEventView::NotFound,
            ProbeEvent::Status(s) => ProbeEventView::Status(s@),
        }
    }
}

/// Mathematical model of a [`RunnerError`].
pub enum RunnerErrorView {
    ElfError(Seq<char>),
    FlashError,
    FileDownloadError,
    DebugProbeError,
    UnableToReachMain,
    ProbeRs,
    ProbeRsRtt,
    Other(Seq<char>),
}

/// Why a run failed.
#[derive(Debug, Clone)]
pub enum RunnerError {
    /// The image cannot be run.
    ElfError(String),
    /// Flashing failed.
    FlashError,
    /// The image could not be laid out for flashing.
    FileDownloadError,
    /// The probe failed.
    DebugProbeError,
    /// The firmware started, but did not reach `main`.
    UnableToReachMain,
    /// The session with the target failed.
    ProbeRs,
    /// The debug transport failed.
    ProbeRsRtt,
    /// Another failure, in words.
    Other(String),
}

impl View for RunnerError {
    type V = RunnerErrorView;

    open spec fn view(&self) -> RunnerErrorView {
        match self {
            RunnerError::ElfError(text) => RunnerErrorView::ElfError(text@),
            RunnerError::FlashError => RunnerErrorView::FlashError,
            RunnerError::FileDownloadError => RunnerErrorView::FileDownloadError,
            RunnerError::DebugProbeError => RunnerErrorView::DebugProbeError,
            RunnerError::UnableToReachMain => RunnerErrorView::UnableToReachMain,
            RunnerError::ProbeRs => RunnerErrorView::ProbeRs,
            RunnerError::ProbeRsRtt => RunnerErrorView::ProbeRsRtt,
            RunnerError::Other(text) => RunnerErrorView::Other(text@),
        }
    }
}

/// The words in which an error is reported.
pub open spec fn error_text(error: RunnerErrorView) -> Seq<char> {
    match error {
        RunnerErrorView::ElfError(text) => "ELF file error: "@ + text,
        RunnerErrorView::FlashError => "A flashing error occurred"@,
        RunnerErrorView::FileDownloadError => "A file download error occurred"@,
        RunnerErrorView::DebugProbeError => "A debug probe error occurred"@,
        RunnerErrorView::UnableToReachMain => "The app started, but did not reach to main"@,
        RunnerErrorView::ProbeRs => "A runner error occurred"@,
        RunnerErrorView::ProbeRsRtt => "An RTT error occurred"@,
        RunnerErrorView::Other(text) => text,
    }
}

impl RunnerError {
    /// The error in words.
    pub fn message(&self) -> (r: String)
        ensures
            r@ == error_text(self@),
    {
        match self {
            RunnerError::ElfError(text) => {
                let mut s = String::from_str("ELF file error: ");
                s.append(text.as_str());
                s
            },
            RunnerError::FlashError => String::from_str("A flashing error occurred"),
            RunnerError::FileDownloadError => String::from_str("A file download error occurred"),
            RunnerError::DebugProbeError => String::from_str("A debug probe error occurred"),
            RunnerError::UnableToReachMain => String::from_str(
                "The app started, but did not reach to main",
            ),
            RunnerError::ProbeRs => String::from_str("A runner error occurred"),
            RunnerError::ProbeRsRtt => String::from_str("An RTT error occurred"),
            RunnerError::Other(text) => text.clone(),
        }
    }
}

/// Mathematical model of a [`Verdict`].
pub enum VerdictView {
    Setup(RunnerErrorView),
    Failed(RunnerErrorView),
    FailedLate(RunnerErrorView),
    Timeout,
    Hardfault { lr: u32, cfsr: Option<u32>, bfar: Option<u32> },
    HaltedOther(Seq<char>),
    LockedUp,
    Sleeping,
    Unknown,
    Passed,
}

/// How a run ended, before its log is looked at.
#[derive(Debug, Clone)]
pub enum Verdict {
    /// The run could not be set up.
    Setup(RunnerError),
    /// The run failed after the barrier, while the log was drained.
    Failed(RunnerError),
    /// The run failed while the halt was classified.
    FailedLate(RunnerError),
    /// The core did not halt in time.
    Timeout,
    /// The core halted in the hardfault handler. The link register at the
    /// time; the fault status where the fault was escalated; the address of
    /// the bus fault where it is valid.
    Hardfault { lr: u32, cfsr: Option<u32>, bfar: Option<u32> },
    /// The core halted, but not at a breakpoint.
    HaltedOther(String),
    /// The core is locked up.
    LockedUp,
    /// The core sleeps.
    Sleeping,
    /// The status of the core is not known.
    Unknown,
    /// The core halted at the breakpoint of the firmware, or runs on.
    Passed,
}

impl View for Verdict {
    type V = VerdictView;

    open spec fn view(&self) -> VerdictView {
        match self {
            Verdict::Setup(e) => VerdictView::Setup(e@),
            Verdict::Failed(e) => VerdictView::Failed(e@),
            Verdict::FailedLate(e) => VerdictView::FailedLate(e@),
            Verdict::Timeout => VerdictView::Timeout,
            Verdict::Hardfault { lr, cfsr, bfar } => VerdictView::Hardfault {
                lr: *lr,
                cfsr: *cfsr,
                bfar: *bfar,
            },
            Verdict::HaltedOther(reason) => VerdictView::HaltedOther(reason@),
            Verdict::LockedUp => VerdictView::LockedUp,
            Verdict::Sleeping => VerdictView::Sleeping,
            Verdict::Unknown => VerdictView::Unknown,
            Verdict::Passed => VerdictView::Passed,
        }
    }
}

/// Mathematical model of a [`RunState`].
pub struct RunView {
    pub phase: Phase,
    pub word: u32,
    pub lr: u32,
    pub cfsr: u32,
    pub buffer: Seq<u8>,
    pub verdict: Option<VerdictView>,
}

/// The state of a run: its phase, the numbers it has to remember, what was
/// drained so far, and how it ended, once it has.
#[derive(Debug)]
pub struct RunState {
    phase: Phase,
    word: u32,
    lr: u32,
    cfsr: u32,
    buffer: Vec<u8>,
    verdict: Option<Verdict>,
}

impl View for RunState {
    type V = RunView;

    closed spec fn view(&self) -> RunView {
        RunView {
            phase: self.phase,
            word: self.word,
            lr: self.lr,
            cfsr: self.cfsr,
            buffer: self.buffer@,
            verdict: match self.verdict {
                Some(v) => Some(v@),
                None => None,
            },
        }
    }
}

/// The state in which every run begins.
pub open spec fn initial_run() -> RunView {
    RunView {
        phase: Phase::ClaimProbe,
        word: 0,
        lr: 0,
        cfsr: 0,
        buffer: Seq::empty(),
        verdict: None,
    }
}

/// The action that a phase stands for.
pub open spec fn action_of(phase: Phase, image: Image, word: u32, speed_khz: Option<u32>) -> ProbeAction {
    match phase {
        Phase::ClaimProbe | Phase::ReclaimProbe => ProbeAction::OpenProbe { speed_khz },
        Phase::Attach => ProbeAction::Attach,
        Phase::AttachUnderReset => ProbeAction::AttachUnderReset,
        Phase::FirstReset | Phase::SecondReset => ProbeAction::ResetAndHalt {
            timeout_ms: RESET_TIMEOUT_MS,
        },
        Phase::Flash => ProbeAction::Flash,
        Phase::PatchRead => ProbeAction::ReadWord32 { address: image.vector_table.start as u64 },
        Phase::PatchWrite => ProbeAction::WriteWord32 {
            address: image.vector_table.start as u64,
            value: word,
        },
        Phase::BreakpointUnits => ProbeAction::QueryBreakpointUnits,
        Phase::WritePc => ProbeAction::WriteCoreReg {
            register: PC,
            value: without_thumb_bit(image.vector_table.reset),
        },
        Phase::WriteSp => ProbeAction::WriteCoreReg {
            register: SP,
            value: image.vector_table.stack_pointer,
        },
        Phase::WriteVtor => ProbeAction::WriteWord32 {
            address: VTOR,
            value: image.vector_table.start,
        },
        Phase::ResetRtt => ProbeAction::WriteWord32 {
            address: image.symbols.rtt as u64,
            value: RTT_RESET,
        },
        Phase::BreakAtMain => ProbeAction::SetHwBreakpoint { address: image.symbols.main as u64 },
        Phase::RunToMain | Phase::Resume => ProbeAction::Run,
        Phase::WaitAtMain => ProbeAction::WaitForHalt { timeout_ms: MAIN_TIMEOUT_MS },
        Phase::SetRttFlags => ProbeAction::WriteWord32 {
            address: (image.symbols.rtt + RTT_FLAGS_OFFSET) as u64,
            value: RTT_BLOCK_IF_FULL,
        },
        Phase::ClearMainBreak => ProbeAction::ClearHwBreakpoint {
            address: image.symbols.main as u64,
        },
        Phase::ArmExit => if image.from_ram {
            ProbeAction::WriteBreakpointOpcode {
                address: without_thumb_bit(image.vector_table.hardfault) as u64,
            }
        } else {
            ProbeAction::SetHwBreakpoint {
                address: without_thumb_bit(image.vector_table.hardfault) as u64,
            }
        },
        Phase::Barrier => ProbeAction::WaitAtBarrier,
        Phase::ScanRtt => ProbeAction::ScanRtt { address: image.symbols.rtt },
        Phase::PauseScan => ProbeAction::Sleep { millis: SCAN_PAUSE_MS },
        Phase::OpenChannel => ProbeAction::OpenUpChannel { number: 0 },
        Phase::Drain | Phase::LastDrain => ProbeAction::ReadRtt { capacity: READ_CAPACITY },
        Phase::CheckHalted => ProbeAction::QueryHalted,
        Phase::ReadStatus => ProbeAction::QueryStatus,
        Phase::ReadPsr => ProbeAction::ReadCoreReg { register: PSR },
        Phase::ReadLr => ProbeAction::ReadCoreReg { register: LR },
        Phase::ReadHfsr => ProbeAction::ReadWord32 { address: HFSR },
        Phase::ReadCfsr => ProbeAction::ReadWord32 { address: CFSR },
        Phase::ReadBfar => ProbeAction::ReadWord32 { address: BFAR },
        Phase::ReleaseBarrier => ProbeAction::ReleaseBarrier,
        Phase::Finished => ProbeAction::Finish,
    }
}

/// The phase that follows when the action of `phase` was carried out, for
/// the phases whose action is answered so.
pub open spec fn done_successor(phase: Phase, from_ram: bool) -> Option<Phase> {
    match phase {
        Phase::ClaimProbe => Some(Phase::Attach),
        Phase::Attach => Some(Phase::FirstReset),
        Phase::ReclaimProbe => Some(Phase::AttachUnderReset),
        Phase::AttachUnderReset => Some(Phase::FirstReset),
        Phase::FirstReset => Some(Phase::Flash),
        Phase::Flash => Some(
            if from_ram {
                Phase::PatchRead
            } else {
                Phase::SecondReset
            },
        ),
        Phase::PatchWrite => Some(Phase::SecondReset),
        Phase::SecondReset => Some(Phase::BreakpointUnits),
        Phase::WritePc => Some(Phase::WriteSp),
        Phase::WriteSp => Some(Phase::WriteVtor),
        Phase::WriteVtor => Some(Phase::ArmExit),
        Phase::ResetRtt => Some(Phase::BreakAtMain),
        Phase::BreakAtMain => Some(Phase::RunToMain),
        Phase::RunToMain => Some(Phase::WaitAtMain),
        Phase::WaitAtMain => Some(Phase::SetRttFlags),
        Phase::SetRttFlags => Some(Phase::ClearMainBreak),
        Phase::ClearMainBreak => Some(Phase::ArmExit),
        Phase::ArmExit => Some(Phase::Resume),
        Phase::Resume => Some(Phase::Barrier),
        Phase::Barrier => Some(Phase::ScanRtt),
        Phase::ScanRtt => Some(Phase::OpenChannel),
        Phase::OpenChannel => Some(Phase::Drain),
        Phase::ReleaseBarrier => Some(Phase::Finished),
        Phase::Finished => Some(Phase::Finished),
        _ => None,
    }
}

/// The error that a failure of the probe in `phase` is reported as.
pub open spec fn error_for(phase: Phase, failure: ProbeFailureView) -> RunnerErrorView {
    if phase == Phase::AttachUnderReset {
        RunnerErrorView::Other(
            "Unable to attach to the target, both normal and attach under reset failed"@,
        )
    } else if reaching_main(phase) {
        RunnerErrorView::UnableToReachMain
    } else if phase == Phase::LastDrain {
        RunnerErrorView::Other(failure.text)
    } else {
        match failure.kind {
            FailureKind::Flash => RunnerErrorView::FlashError,
            FailureKind::FileDownload => RunnerErrorView::FileDownloadError,
            FailureKind::DebugProbe => RunnerErrorView::DebugProbeError,
            FailureKind::Probe => RunnerErrorView::ProbeRs,
            FailureKind::Rtt => RunnerErrorView::ProbeRsRtt,
        }
    }
}

impl RunView {
    /// The run in another phase.
    pub open spec fn at(self, phase: Phase) -> RunView {
        RunView { phase, ..self }
    }

    /// The run over, with a verdict.
    pub open spec fn ended(self, verdict: VerdictView) -> RunView {
        RunView { phase: Phase::Finished, verdict: Some(verdict), ..self }
    }

    /// The run failed with `error`: before the barrier, the barrier is still
    /// to be released; after it, the run is over.
    pub open spec fn failed(self, error: RunnerErrorView) -> RunView {
        if before_barrier(self.phase) {
            RunView { phase: Phase::ReleaseBarrier, verdict: Some(VerdictView::Setup(error)), ..self }
        } else if classifying(self.phase) {
            self.ended(VerdictView::FailedLate(error))
        } else {
            self.ended(VerdictView::Failed(error))
        }
    }

    /// The run after an answer that does not fit its phase: a run that is
    /// over stays over; any other fails.
    pub open spec fn strayed(self) -> RunView {
        if self.phase == Phase::ReleaseBarrier || self.phase == Phase::Finished {
            self.at(Phase::Finished)
        } else {
            self.failed(RunnerErrorView::Other("Unexpected answer from the probe"@))
        }
    }
}

/// Whether the time since the channel was taken is more than the run is
/// given.
pub open spec fn timed_out(elapsed_nanos: u128, timeout_secs: u64) -> bool {
    elapsed_nanos > timeout_secs * 1_000_000_000
}

/// The run after the answer `event` to the action of its phase.
pub open spec fn next(run: RunView, image: Image, timeout_secs: u64, event: ProbeEventView) -> RunView {
    match event {
        ProbeEventView::Failed(failure) => if run.phase == Phase::Attach {
            run.at(Phase::ReclaimProbe)
        } else if run.phase == Phase::ReleaseBarrier || run.phase == Phase::Finished {
            run.at(Phase::Finished)
        } else {
            run.failed(error_for(run.phase, failure))
        },
        ProbeEventView::Done => match done_successor(run.phase, image.from_ram) {
            Some(phase) => run.at(phase),
            None => run.strayed(),
        },
        ProbeEventView::Number(n) => match run.phase {
            Phase::PatchRead => RunView { word: n, ..run.at(Phase::PatchWrite) },
            Phase::BreakpointUnits => if n == 0 {
                run.failed(
                    RunnerErrorView::Other(
                        "The target does not have any HW breakpoint units?! Aborting."@,
                    ),
                )
            } else if image.from_ram {
                run.at(Phase::WritePc)
            } else {
                run.at(Phase::ResetRtt)
            },
            Phase::ReadPsr => if n & 0xff == HARDFAULT_ISR {
                run.at(Phase::ReadLr)
            } else {
                run.ended(VerdictView::Passed)
            },
            Phase::ReadLr => RunView { lr: n, ..run.at(Phase::ReadHfsr) },
            Phase::ReadHfsr => if n & 0x4000_0000 != 0 {
                run.at(Phase::ReadCfsr)
            } else {
                run.ended(VerdictView::Hardfault { lr: run.lr, cfsr: None, bfar: None })
            },
            Phase::ReadCfsr => if (n >> 8) & 0x80 != 0 {
                RunView { cfsr: n, ..run.at(Phase::ReadBfar) }
            } else {
                run.ended(VerdictView::Hardfault { lr: run.lr, cfsr: Some(n), bfar: None })
            },
            Phase::ReadBfar => run.ended(
                VerdictView::Hardfault { lr: run.lr, cfsr: Some(run.cfsr), bfar: Some(n) },
            ),
            _ => run.strayed(),
        },
        ProbeEventView::Bytes(bytes) => match run.phase {
            Phase::Drain => RunView { buffer: run.buffer + bytes, ..run.at(Phase::CheckHalted) },
            Phase::LastDrain => RunView { buffer: run.buffer + bytes, ..run.at(Phase::ReadStatus) },
            _ => run.strayed(),
        },
        ProbeEventView::Halted { halted, elapsed_nanos } => match run.phase {
            Phase::CheckHalted => if halted {
                run.at(Phase::LastDrain)
            } else if timed_out(elapsed_nanos, timeout_secs) {
                run.ended(VerdictView::Timeout)
            } else {
                run.at(Phase::Drain)
            },
            _ => run.strayed(),
        },
        ProbeEventView::Elapsed { nanos } => match run.phase {
            Phase::PauseScan => if nanos > SCAN_LIMIT_NANOS {
                run.failed(RunnerErrorView::ProbeRsRtt)
            } else {
                run.at(Phase::ScanRtt)
            },
            _ => run.strayed(),
        },
        ProbeEventView::NotFound => match run.phase {
            Phase::ScanRtt => run.at(Phase::PauseScan),
            Phase::OpenChannel => run.failed(
                RunnerErrorView::Other("Could not open the RTT channel"@),
            ),
            _ => run.strayed(),
        },
        ProbeEventView::Status(status) => match run.phase {
            Phase::ReadStatus => match status {
                CoreStateView::HaltedAtBreakpoint => run.at(Phase::ReadPsr),
                CoreStateView::HaltedOther(reason) => run.ended(VerdictView::HaltedOther(reason)),
                CoreStateView::LockedUp => run.ended(VerdictView::LockedUp),
                CoreStateView::Sleeping => run.ended(VerdictView::Sleeping),
                CoreStateView::Unknown => run.ended(VerdictView::Unknown),
                CoreStateView::Running => run.ended(VerdictView::Passed),
            },
            _ => run.strayed(),
        },
    }
}

impl Phase {
    /// The place of the phase in the course of a run.
    pub fn place(self) -> (r: u8)
        ensures
            r == rank(self),
    {
        match self {
            Phase::ClaimProbe => 0,
            Phase::Attach => 1,
            Phase::ReclaimProbe => 2,
            Phase::AttachUnderReset => 3,
            Phase::FirstReset => 4,
            Phase::Flash => 5,
            Phase::PatchRead => 6,
            Phase::PatchWrite => 7,
            Phase::SecondReset => 8,
            Phase::BreakpointUnits => 9,
            Phase::WritePc => 10,
            Phase::WriteSp => 11,
            Phase::WriteVtor => 12,
            Phase::ResetRtt => 13,
            Phase::BreakAtMain => 14,
            Phase::RunToMain => 15,
            Phase::WaitAtMain => 16,
            Phase::SetRttFlags => 17,
            Phase::ClearMainBreak => 18,
            Phase::ArmExit => 19,
            Phase::Resume => 20,
            Phase::Barrier => 21,
            Phase::ScanRtt => 22,
            Phase::PauseScan => 23,
            Phase::OpenChannel => 24,
            Phase::Drain => 25,
            Phase::CheckHalted => 26,
            Phase::LastDrain => 27,
            Phase::ReadStatus => 28,
            Phase::ReadPsr => 29,
            Phase::ReadLr => 30,
            Phase::ReadHfsr => 31,
            Phase::ReadCfsr => 32,
            Phase::ReadBfar => 33,
            Phase::ReleaseBarrier => 34,
            Phase::Finished => 35,
        }
    }

    /// The action that the phase stands for.
    pub fn action(self, image: &Image, word: u32, speed_khz: Option<u32>) -> (r: ProbeAction)
        ensures
            r == action_of(self, *image, word, speed_khz),
    {
        match self {
            Phase::ClaimProbe | Phase::ReclaimProbe => ProbeAction::OpenProbe { speed_khz },
            Phase::Attach => ProbeAction::Attach,
            Phase::AttachUnderReset => ProbeAction::AttachUnderReset,
            Phase::FirstReset | Phase::SecondReset => ProbeAction::ResetAndHalt {
                timeout_ms: RESET_TIMEOUT_MS,
            },
            Phase::Flash => ProbeAction::Flash,
            Phase::PatchRead => ProbeAction::ReadWord32 { address: image.vector_table.start as u64 },
            Phase::PatchWrite => ProbeAction::WriteWord32 {
                address: image.vector_table.start as u64,
                value: word,
            },
            Phase::BreakpointUnits => ProbeAction::QueryBreakpointUnits,
            Phase::WritePc => ProbeAction::WriteCoreReg {
                register: PC,
                value: crate::elf::clear_thumb_bit(image.vector_table.reset),
            },
            Phase::WriteSp => ProbeAction::WriteCoreReg {
                register: SP,
                value: image.vector_table.stack_pointer,
            },
            Phase::WriteVtor => ProbeAction::WriteWord32 {
                address: VTOR,
                value: image.vector_table.start,
            },
            Phase::ResetRtt => ProbeAction::WriteWord32 {
                address: image.symbols.rtt as u64,
                value: RTT_RESET,
            },
            Phase::BreakAtMain => ProbeAction::SetHwBreakpoint {
                address: image.symbols.main as u64,
            },
            Phase::RunToMain | Phase::Resume => ProbeAction::Run,
            Phase::WaitAtMain => ProbeAction::WaitForHalt { timeout_ms: MAIN_TIMEOUT_MS },
            Phase::SetRttFlags => ProbeAction::WriteWord32 {
                address: image.symbols.rtt as u64 + RTT_FLAGS_OFFSET,
                value: RTT_BLOCK_IF_FULL,
            },
            Phase::ClearMainBreak => ProbeAction::ClearHwBreakpoint {
                address: image.symbols.main as u64,
            },
            Phase::ArmExit => {
                let address = crate::elf::clear_thumb_bit(image.vector_table.hardfault) as u64;
                if image.from_ram {
                    ProbeAction::WriteBreakpointOpcode { address }
                } else {
                    ProbeAction::SetHwBreakpoint { address }
                }
            },
            Phase::Barrier => ProbeAction::WaitAtBarrier,
            Phase::ScanRtt => ProbeAction::ScanRtt { address: image.symbols.rtt },
            Phase::PauseScan => ProbeAction::Sleep { millis: SCAN_PAUSE_MS },
            Phase::OpenChannel => ProbeAction::OpenUpChannel { number: 0 },
            Phase::Drain | Phase::LastDrain => ProbeAction::ReadRtt { capacity: READ_CAPACITY },
            Phase::CheckHalted => ProbeAction::QueryHalted,
            Phase::ReadStatus => ProbeAction::QueryStatus,
            Phase::ReadPsr => ProbeAction::ReadCoreReg { register: PSR },
            Phase::ReadLr => ProbeAction::ReadCoreReg { register: LR },
            Phase::ReadHfsr => ProbeAction::ReadWord32 { address: HFSR },
            Phase::ReadCfsr => ProbeAction::ReadWord32 { address: CFSR },
            Phase::ReadBfar => ProbeAction::ReadWord32 { address: BFAR },
            Phase::ReleaseBarrier => ProbeAction::ReleaseBarrier,
            Phase::Finished => ProbeAction::Finish,
        }
    }

    /// The phase that follows when the action of this one was carried out.
    pub fn after_done(self, from_ram: bool) -> (r: Option<Phase>)
        ensures
            r == done_successor(self, from_ram),
    {
        match self {
            Phase::ClaimProbe => Some(Phase::Attach),
            Phase::Attach => Some(Phase::FirstReset),
            Phase::ReclaimProbe => Some(Phase::AttachUnderReset),
            Phase::AttachUnderReset => Some(Phase::FirstReset),
            Phase::FirstReset => Some(Phase::Flash),
            Phase::Flash => Some(
                if from_ram {
                    Phase::PatchRead
                } else {
                    Phase::SecondReset
                },
            ),
            Phase::PatchWrite => Some(Phase::SecondReset),
            Phase::SecondReset => Some(Phase::BreakpointUnits),
            Phase::WritePc => Some(Phase::WriteSp),
            Phase::WriteSp => Some(Phase::WriteVtor),
            Phase::WriteVtor => Some(Phase::ArmExit),
            Phase::ResetRtt => Some(Phase::BreakAtMain),
            Phase::BreakAtMain => Some(Phase::RunToMain),
            Phase::RunToMain => Some(Phase::WaitAtMain),
            Phase::WaitAtMain => Some(Phase::SetRttFlags),
            Phase::SetRttFlags => Some(Phase::ClearMainBreak),
            Phase::ClearMainBreak => Some(Phase::ArmExit),
            Phase::ArmExit => Some(Phase::Resume),
            Phase::Resume => Some(Phase::Barrier),
            Phase::Barrier => Some(Phase::ScanRtt),
            Phase::ScanRtt => Some(Phase::OpenChannel),
            Phase::OpenChannel => Some(Phase::Drain),
            Phase::ReleaseBarrier => Some(Phase::Finished),
            Phase::Finished => Some(Phase::Finished),
            _ => None,
        }
    }
}

/// The error that a failure of the probe in `phase` is reported as.
pub fn report_failure(phase: Phase, failure: ProbeFailure) -> (r: RunnerError)
    ensures
        r@ == error_for(phase, failure@),
{
    let place = phase.place();
    if place == 3 {
        RunnerError::Other(
            String::from_str(
                "Unable to attach to the target, both normal and attach under reset failed",
            ),
        )
    } else if 10 <= place && place <= 16 {
        RunnerError::UnableToReachMain
    } else if place == 27 {
        RunnerError::Other(failure.text)
    } else {
        match failure.kind {
            FailureKind::Flash => RunnerError::FlashError,
            FailureKind::FileDownload => RunnerError::FileDownloadError,
            FailureKind::DebugProbe => RunnerError::DebugProbeError,
            FailureKind::Probe => RunnerError::ProbeRs,
            FailureKind::Rtt => RunnerError::ProbeRsRtt,
        }
    }
}

impl RunState {
    /// The state in which every run begins.
    pub fn new() -> (r: Self)
        ensures
            r@ == initial_run(),
    {
        RunState { phase: Phase::ClaimProbe, word: 0, lr: 0, cfsr: 0, buffer: Vec::new(), verdict: None }
    }

    /// The phase in which the run stands.
    pub fn phase(&self) -> (r: Phase)
        ensures
            r == self@.phase,
    {
        self.phase
    }

    /// The action that the run waits to be answered.
    pub fn action(&self, image: &Image, speed_khz: Option<u32>) -> (r: ProbeAction)
        ensures
            r == action_of(self@.phase, *image, self@.word, speed_khz),
    {
        self.phase.action(image, self.word, speed_khz)
    }

    /// The octets drained so far.
    pub fn buffer(&self) -> (r: &[u8])
        ensures
            r@ == self@.buffer,
    {
        self.buffer.as_slice()
    }

    /// Whether the run is over.
    pub fn is_finished(&self) -> (r: bool)
        ensures
            r == (self@.phase == Phase::Finished),
    {
        match self.phase {
            Phase::Finished => true,
            _ => false,
        }
    }

    /// Hands out how the run ended and what was drained.
    pub fn into_parts(self) -> (r: (Option<Verdict>, Vec<u8>))
        ensures
            r.1@ == self@.buffer,
            match r.0 {
                Some(v) => self@.verdict == Some(v@),
                None => self@.verdict is None,
            },
    {
        (self.verdict, self.buffer)
    }

    fn fail(&mut self, error: RunnerError)
        ensures
            final(self)@ == old(self)@.failed(error@),
    {
        let place = self.phase.place();
        if place < 21 {
            self.phase = Phase::ReleaseBarrier;
            self.verdict = Some(Verdict::Setup(error));
        } else if 28 <= place && place <= 33 {
            self.phase = Phase::Finished;
            self.verdict = Some(Verdict::FailedLate(error));
        } else {
            self.phase = Phase::Finished;
            self.verdict = Some(Verdict::Failed(error));
        }
    }

    fn end(&mut self, verdict: Verdict)
        ensures
            final(self)@ == old(self)@.ended(verdict@),
    {
        self.phase = Phase::Finished;
        self.verdict = Some(verdict);
    }

    fn stray(&mut self)
        ensures
            final(self)@ == old(self)@.strayed(),
    {
        match self.phase {
            Phase::ReleaseBarrier | Phase::Finished => {
                self.phase = Phase::Finished;
            },
            _ => {
                self.fail(RunnerError::Other(String::from_str("Unexpected answer from the probe")));
            },
        }
    }

    fn on_number(&mut self, image: &Image, n: u32)
        ensures
            forall|timeout_secs: u64|
                final(self)@ == #[trigger] next(
                    old(self)@,
                    *image,
                    timeout_secs,
                    ProbeEventView::Number(n),
                ),
    {
        match self.phase {
            Phase::PatchRead => {
                self.word = n;
                self.phase = Phase::PatchWrite;
            },
            Phase::BreakpointUnits => {
                if n == 0 {
                    self.fail(
                        RunnerError::Other(
                            String::from_str(
                                "The target does not have any HW breakpoint units?! Aborting.",
                            ),
                        ),
                    );
                } else if image.from_ram {
                    self.phase = Phase::WritePc;
                } else {
                    self.phase = Phase::ResetRtt;
                }
            },
            Phase::ReadPsr => {
                if n & 0xff == HARDFAULT_ISR {
                    self.phase = Phase::ReadLr;
                } else {
                    self.end(Verdict::Passed);
                }
            },
            Phase::ReadLr => {
                self.lr = n;
                self.phase = Phase::ReadHfsr;
            },
            Phase::ReadHfsr => {
                if n & 0x4000_0000 != 0 {
                    self.phase = Phase::ReadCfsr;
                } else {
                    let lr = self.lr;
                    self.end(Verdict::Hardfault { lr, cfsr: None, bfar: None });
                }
            },
            Phase::ReadCfsr => {
                if (n >> 8) & 0x80 != 0 {
                    self.cfsr = n;
                    self.phase = Phase::ReadBfar;
                } else {
                    let lr = self.lr;
                    self.end(Verdict::Hardfault { lr, cfsr: Some(n), bfar: None });
                }
            },
            Phase::ReadBfar => {
                let lr = self.lr;
                let cfsr = self.cfsr;
                self.end(Verdict::Hardfault { lr, cfsr: Some(cfsr), bfar: Some(n) });
            },
            _ => {
                self.stray();
            },
        }
    }

    fn on_status(&mut self, status: CoreState)
        ensures
            forall|image: Image, timeout_secs: u64|
                final(self)@ == #[trigger] next(
                    old(self)@,
                    image,
                    timeout_secs,
                    ProbeEventView::Status(status@),
                ),
    {
        match self.phase {
            Phase::ReadStatus => match status {
                CoreState::HaltedAtBreakpoint => {
                    self.phase = Phase::ReadPsr;
                },
                CoreState::HaltedOther(reason) => {
                    self.end(Verdict::HaltedOther(reason));
                },
                CoreState::LockedUp => {
                    self.end(Verdict::LockedUp);
                },
                CoreState::Sleeping => {
                    self.end(Verdict::Sleeping);
                },
                CoreState::Unknown => {
                    self.end(Verdict::Unknown);
                },
                CoreState::Running => {
                    self.end(Verdict::Passed);
                },
            },
            _ => {
                self.stray();
            },
        }
    }

    /// Takes the answer to the action that the run waited for, decides what
    /// comes next, and orders it.
    pub fn step(
        &mut self,
        image: &Image,
        timeout_secs: u64,
        speed_khz: Option<u32>,
        event: ProbeEvent,
    ) -> (action: ProbeAction)
        ensures
            final(self)@ == next(old(self)@, *image, timeout_secs, event@),
            action == action_of(final(self)@.phase, *image, final(self)@.word, speed_khz),
    {
        match event {
            ProbeEvent::Failed(failure) => {
                match self.phase {
                    Phase::Attach => {
                        self.phase = Phase::ReclaimProbe;
                    },
                    Phase::ReleaseBarrier | Phase::Finished => {
                        self.phase = Phase::Finished;
                    },
                    _ => {
                        let error = report_failure(self.phase, failure);
                        self.fail(error);
                    },
                }
            },
            ProbeEvent::Done => {
                match self.phase.after_done(image.from_ram) {
                    Some(phase) => {
                        self.phase = phase;
                    },
                    None => {
                        self.stray();
                    },
                }
            },
            ProbeEvent::Number(n) => {
                self.on_number(image, n);
            },
            ProbeEvent::Bytes(mut bytes) => {
                match self.phase {
                    Phase::Drain => {
                        self.buffer.append(&mut bytes);
                        self.phase = Phase::CheckHalted;
                    },
                    Phase::LastDrain => {
                        self.buffer.append(&mut bytes);
                        self.phase = Phase::ReadStatus;
                    },
                    _ => {
                        self.stray();
                    },
                }
            },
            ProbeEvent::Halted { halted, elapsed_nanos } => {
                match self.phase {
                    Phase::CheckHalted => {
                        if halted {
                            self.phase = Phase::LastDrain;
                        } else if elapsed_nanos > (timeout_secs as u128) * 1_000_000_000 {
                            self.end(Verdict::Timeout);
                        } else {
                            self.phase = Phase::Drain;
                        }
                    },
                    _ => {
                        self.stray();
                    },
                }
            },
            ProbeEvent::Elapsed { nanos } => {
                match self.phase {
                    Phase::PauseScan => {
                        if nanos > SCAN_LIMIT_NANOS {
                            self.fail(RunnerError::ProbeRsRtt);
                        } else {
                            self.phase = Phase::ScanRtt;
                        }
                    },
                    _ => {
                        self.stray();
                    },
                }
            },
            ProbeEvent::NotFound => {
                match self.phase {
                    Phase::ScanRtt => {
                        self.phase = Phase::PauseScan;
                    },
                    Phase::OpenChannel => {
                        self.fail(
                            RunnerError::Other(String::from_str("Could not open the RTT channel")),
                        );
                    },
                    _ => {
                        self.stray();
                    },
                }
            },
            ProbeEvent::Status(status) => {
                self.on_status(status);
            },
        }
        self.phase.action(image, self.word, speed_khz)
    }
}

/// The image is as the introspection of an image leaves it: the address of
/// `main` has its Thumb bit cleared.
pub open spec fn image_wf(image: Image) -> bool {
    image.symbols.main & 1 == 0
}

/// The address of code that an action hands to the core has its low bit
/// cleared: the address at which it sets, clears or writes a breakpoint, and
/// the value that it writes to the program counter.
pub open spec fn is_thumb_masked(action: ProbeAction) -> bool {
    match action {
        ProbeAction::SetHwBreakpoint { address } => address & 1 == 0,
        ProbeAction::ClearHwBreakpoint { address } => address & 1 == 0,
        ProbeAction::WriteBreakpointOpcode { address } => address & 1 == 0,
        ProbeAction::WriteCoreReg { register, value } => register == PC ==> value & 1 == 0,
        _ => true,
    }
}

/// Every address at which the machine orders a breakpoint, be it a hardware
/// breakpoint or the breakpoint instruction, has its low bit cleared, and so
/// has the value that it writes to the program counter: the reset vector of
/// the image without its Thumb bit.
pub proof fn code_addresses_are_masked(
    phase: Phase,
    image: Image,
    word: u32,
    speed_khz: Option<u32>,
)
    requires
        image_wf(image),
    ensures
        is_thumb_masked(action_of(phase, image, word, speed_khz)),
        action_of(phase, image, word, speed_khz) matches ProbeAction::WriteCoreReg {
            register,
            value,
        } ==> (register == PC ==> value == without_thumb_bit(image.vector_table.reset)),
{
    let main = image.symbols.main;
    let hardfault = image.vector_table.hardfault;
    let reset = image.vector_table.reset;
    assert((reset & 0xffff_fffeu32) & 1 == 0) by (bit_vector);
    assert(SP != PC);
    assert((main as u64) & 1 == 0) by (bit_vector)
        requires
            main & 1 == 0,
    ;
    assert(((hardfault & 0xffff_fffeu32) as u64) & 1 == 0) by (bit_vector);
}

/// No run gets past the barrier without waiting at it: a phase after the
/// barrier, in which the log is drained or the halt classified, is entered
/// only from the barrier or from a phase after it. A run that fails before
/// the barrier goes on to release it.
pub proof fn barrier_is_not_passed_over(
    run: RunView,
    image: Image,
    timeout_secs: u64,
    event: ProbeEventView,
)
    ensures
        rank(Phase::Barrier) < rank(next(run, image, timeout_secs, event).phase) < rank(
            Phase::ReleaseBarrier,
        ) ==> rank(Phase::Barrier) <= rank(run.phase) < rank(Phase::ReleaseBarrier),
        before_barrier(run.phase) ==> {
            ||| rank(next(run, image, timeout_secs, event).phase) <= rank(Phase::Barrier)
            ||| next(run, image, timeout_secs, event).phase == Phase::ReleaseBarrier
        },
        run.phase == Phase::ReleaseBarrier ==> next(run, image, timeout_secs, event).phase
            == Phase::Finished,
        run.phase == Phase::Finished ==> next(run, image, timeout_secs, event) == run,
{
}

/// A run moves on: every answer takes it to a later phase, but for the two
/// waits that time bounds, the scan for the control block and the drain of
/// the log, in which it goes back to scan or to read once more; a run that is
/// over stays over.
pub proof fn run_moves_on(run: RunView, image: Image, timeout_secs: u64, event: ProbeEventView)
    ensures
        ({
            let after = next(run, image, timeout_secs, event).phase;
            ||| rank(after) > rank(run.phase)
            ||| run.phase == Phase::PauseScan && after == Phase::ScanRtt
            ||| run.phase == Phase::CheckHalted && after == Phase::Drain
            ||| run.phase == Phase::Finished && after == Phase::Finished
        }),
        forall|nanos: u128|
            run.phase == Phase::PauseScan && nanos > SCAN_LIMIT_NANOS ==> (#[trigger] next(
                run,
                image,
                timeout_secs,
                ProbeEventView::Elapsed { nanos },
            )).phase == Phase::Finished,
        forall|elapsed_nanos: u128|
            run.phase == Phase::CheckHalted && timed_out(elapsed_nanos, timeout_secs) ==> (
            #[trigger] next(
                run,
                image,
                timeout_secs,
                ProbeEventView::Halted { halted: false, elapsed_nanos },
            )).verdict == Some(VerdictView::Timeout),
{
}

/// Octets are read from the debug transport only after the barrier.
pub proof fn drain_comes_after_barrier(phase: Phase, image: Image, word: u32, speed_khz: Option<u32>)
    ensures
        action_of(phase, image, word, speed_khz) is ReadRtt ==> rank(phase) > rank(Phase::Barrier),
        action_of(phase, image, word, speed_khz) is WaitAtBarrier <==> phase == Phase::Barrier,
        action_of(phase, image, word, speed_khz) is ReleaseBarrier <==> phase
            == Phase::ReleaseBarrier,
{
}

/// A run knows how it ended as soon as it is over, and while it has yet to
/// release the barrier it knows that it could not be set up.
pub open spec fn verdict_is_known(run: RunView) -> bool {
    &&& run.phase == Phase::Finished ==> run.verdict is Some
    &&& run.phase == Phase::ReleaseBarrier ==> run.verdict matches Some(VerdictView::Setup(_))
}

/// Every run that is over knows how it ended: this holds when a run begins
/// and after every answer.
pub proof fn verdict_stays_known(
    run: RunView,
    image: Image,
    timeout_secs: u64,
    event: ProbeEventView,
)
    requires
        verdict_is_known(run),
    ensures
        verdict_is_known(initial_run()),
        verdict_is_known(next(run, image, timeout_secs, event)),
{
}

} // verus!
