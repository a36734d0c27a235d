//! The runner of one image on one target: what it learns of the image, the
//! run it steers, and the outcome it reports.

use crate::elf::{
    elf_reading, fault_text, introspect, layout_of, read_elf, reading_view, ElfContents,
    ElfContentsView, ElfFault,
};
use crate::ident::{ProbeSerial, TargetName};
use crate::job::{RunResultDetails, RunResultDetailsView};
use crate::logs::{
    detect_log_type, log_of, log_to_string, log_type_owed, log_type_view, DecodeStep, RttType,
};
use crate::model::views;
use crate::machine::{
    action_of, code_addresses_are_masked, error_text, image_wf, is_thumb_masked,
    initial_run, next, Image, ProbeAction, ProbeEvent, RunState, RunView, RunnerError,
    RunnerErrorView, Verdict, VerdictView,
};
use crate::text::{hex_text, push_hex};
use defmt_decoder::Table;
use vstd::prelude::*;
use vstd::string::StringExecFns;

verus! {

/// The error that a fault of an image is reported as.
pub open spec fn fault_error(fault: ElfFault) -> RunnerErrorView {
    match fault {
        ElfFault::MainNotFound | ElfFault::RttNotFound | ElfFault::VectorTableNotFound =>
            RunnerErrorView::Other(fault_text(fault)),
        _ => RunnerErrorView::ElfError(fault_text(fault)),
    }
}

/// The error that a fault of an image is reported as.
pub fn report_fault(fault: ElfFault) -> (r: RunnerError)
    ensures
        r@ == fault_error(fault),
{
    match fault {
        ElfFault::MainNotFound | ElfFault::RttNotFound | ElfFault::VectorTableNotFound =>
            RunnerError::Other(fault.message()),
        _ => RunnerError::ElfError(fault.message()),
    }
}

/// The error with which octets that are no image are refused.
pub open spec fn not_an_elf(message: Seq<char>) -> RunnerErrorView {
    RunnerErrorView::Other("ELF parsing error, file is not an ELF file: '"@ + message + "'"@)
}

/// What the runner of an image is made of, or why there is none: octets
/// that are no image are refused first; then an image without the symbols
/// or with the sections at fault; then one whose table of log frames is at
/// fault; last one without a vector table.
pub open spec fn assembled(
    contents: Result<ElfContentsView, Seq<char>>,
    log_type: Result<RttType, Seq<char>>,
) -> Result<(Image, RttType), RunnerErrorView> {
    match contents {
        Err(message) => Err(not_an_elf(message)),
        Ok(contents) => match layout_of(contents) {
            Err(fault) => Err(fault_error(fault)),
            Ok(layout) => match log_type {
                Err(message) => Err(RunnerErrorView::Other(message)),
                Ok(rtt_type) => match layout.vector_table {
                    None => Err(fault_error(ElfFault::VectorTableNotFound)),
                    Some(vector_table) => Ok(
                        (
                            Image { from_ram: layout.from_ram, symbols: layout.symbols, vector_table },
                            rtt_type,
                        ),
                    ),
                },
            },
        },
    }
}

/// The runner of one image on one target.
pub struct Runner<'a> {
    target_name: &'a TargetName,
    probe_serial: &'a ProbeSerial,
    probe_speed_khz: Option<u32>,
    image: Image,
    rtt_type: RttType,
    elf_bytes: &'a [u8],
    timeout_secs: u64,
    state: RunState,
}

impl<'a> Runner<'a> {
    /// What of the image steers the run.
    pub closed spec fn image(&self) -> Image {
        self.image
    }

    /// How the log of the image is encoded.
    pub closed spec fn rtt_type(&self) -> RttType {
        self.rtt_type
    }

    /// The serial of the probe to run through.
    pub closed spec fn serial(&self) -> Seq<char> {
        self.probe_serial@
    }

    /// The chip name of the target.
    pub closed spec fn chip(&self) -> Seq<char> {
        self.target_name@
    }

    /// The octets of the image.
    pub closed spec fn elf(&self) -> Seq<u8> {
        self.elf_bytes@
    }

    /// The clock speed to set on the probe, if any.
    pub closed spec fn speed(&self) -> Option<u32> {
        self.probe_speed_khz
    }

    /// The time that the run is given, in seconds.
    pub closed spec fn timeout(&self) -> u64 {
        self.timeout_secs
    }

    /// The state of the run.
    pub closed spec fn state(&self) -> RunView {
        self.state@
    }

    /// Everything but the state of the run is as in `other`.
    pub closed spec fn same_setup(&self, other: &Self) -> bool {
        &&& self.target_name == other.target_name
        &&& self.probe_serial == other.probe_serial
        &&& self.probe_speed_khz == other.probe_speed_khz
        &&& self.image == other.image
        &&& self.rtt_type == other.rtt_type
        &&& self.elf_bytes == other.elf_bytes
    }

    /// What is owed as the runner of an image, given what was read in the
    /// image and how its log was found to be encoded: the runner that
    /// [`assembled`] describes, about to begin its run, or the error.
    pub open spec fn made_from(
        contents: Result<ElfContentsView, Seq<char>>,
        log_type: Result<RttType, Seq<char>>,
        probe_speed_khz: Option<u32>,
        probe_serial: Seq<char>,
        target_name: Seq<char>,
        elf_bytes: Seq<u8>,
        r: Result<Runner<'a>, RunnerError>,
    ) -> bool {
        match r {
            Ok(runner) => {
                &&& assembled(contents, log_type) == Ok::<(Image, RttType), RunnerErrorView>(
                    (runner.image(), runner.rtt_type()),
                )
                &&& image_wf(runner.image())
                &&& runner.speed() == probe_speed_khz
                &&& runner.serial() == probe_serial
                &&& runner.chip() == target_name
                &&& runner.elf() == elf_bytes
                &&& runner.state() == initial_run()
            },
            Err(error) => assembled(contents, log_type) == Err::<(Image, RttType), RunnerErrorView>(
                error@,
            ),
        }
    }

    /// Makes the runner of an image from what was read in it and from how
    /// its log was found to be encoded.
    pub fn assemble(
        elf_bytes: &'a [u8],
        target_name: &'a TargetName,
        probe_serial: &'a ProbeSerial,
        probe_speed_khz: Option<u32>,
        contents: Result<ElfContents, String>,
        log_type: Result<RttType, String>,
    ) -> (r: Result<Runner<'a>, RunnerError>)
        ensures
            Self::made_from(
                reading_view(contents),
                log_type_view(log_type),
                probe_speed_khz,
                probe_serial@,
                target_name@,
                elf_bytes@,
                r,
            ),
    {
        let contents = match contents {
            Ok(contents) => contents,
            Err(message) => {
                let mut text = String::from_str("ELF parsing error, file is not an ELF file: '");
                text.append(message.as_str());
                text.append("'");
                return Err(RunnerError::Other(text));
            },
        };
        let layout = match introspect(&contents) {
            Ok(layout) => layout,
            Err(fault) => {
                return Err(report_fault(fault));
            },
        };
        let rtt_type = match log_type {
            Ok(rtt_type) => rtt_type,
            Err(message) => {
                return Err(RunnerError::Other(message));
            },
        };
        let vector_table = match layout.vector_table {
            Some(vector_table) => vector_table,
            None => {
                return Err(report_fault(ElfFault::VectorTableNotFound));
            },
        };
        Ok(
            Runner {
                target_name,
                probe_serial,
                probe_speed_khz,
                image: Image { from_ram: layout.from_ram, symbols: layout.symbols, vector_table },
                rtt_type,
                elf_bytes,
                timeout_secs: 0,
                state: RunState::new(),
            },
        )
    }

    /// Makes the runner of the image in `elf_bytes` on the target
    /// `target_name` behind the probe `probe_serial`: the runner, or the
    /// error, that [`Runner::made_from`] owes for what the `object` crate
    /// reads in the image and for the encoding of its log that
    /// [`log_type_owed`] describes. `found` is what `Table::parse` of
    /// `defmt-decoder` gave for the image, its error as the error's message.
    pub fn new(
        elf_bytes: &'a [u8],
        target_name: &'a TargetName,
        probe_serial: &'a ProbeSerial,
        probe_speed_khz: Option<u32>,
        found: Result<Option<Table>, String>,
    ) -> (r: Result<Runner<'a>, RunnerError>)
        ensures
            Self::made_from(
                elf_reading(elf_bytes@),
                log_type_owed(found, elf_bytes@),
                probe_speed_khz,
                probe_serial@,
                target_name@,
                elf_bytes@,
                r,
            ),
    {
        let contents = read_elf(elf_bytes);
        let log_type = detect_log_type(elf_bytes, found);
        Runner::assemble(elf_bytes, target_name, probe_serial, probe_speed_khz, contents, log_type)
    }

    /// The serial of the probe to run through.
    pub fn probe_serial(&self) -> (r: &ProbeSerial)
        ensures
            r@ == self.serial(),
    {
        self.probe_serial
    }

    /// The chip name of the target.
    pub fn target_name(&self) -> (r: &TargetName)
        ensures
            r@ == self.chip(),
    {
        self.target_name
    }

    /// The octets of the image, to be flashed.
    pub fn elf_bytes(&self) -> (r: &[u8])
        ensures
            r@ == self.elf(),
    {
        self.elf_bytes
    }

    /// How the log of the image is encoded.
    pub fn log_type(&self) -> (r: &RttType)
        ensures
            *r == self.rtt_type(),
    {
        &self.rtt_type
    }

    /// The octets drained from the debug transport so far.
    pub fn drained(&self) -> (r: &[u8])
        ensures
            r@ == self.state().buffer,
    {
        self.state.buffer()
    }

    /// Begins the run, which is given `timeout_secs` seconds from the moment
    /// its log is drained, and orders its first action.
    pub fn start(&mut self, timeout_secs: u64) -> (action: ProbeAction)
        ensures
            final(self).same_setup(old(self)),
            final(self).image() == old(self).image(),
            final(self).rtt_type() == old(self).rtt_type(),
            final(self).speed() == old(self).speed(),
            final(self).serial() == old(self).serial(),
            final(self).chip() == old(self).chip(),
            final(self).elf() == old(self).elf(),
            final(self).timeout() == timeout_secs,
            final(self).state() == initial_run(),
            action == action_of(
                initial_run().phase,
                final(self).image(),
                0,
                final(self).speed(),
            ),
            is_thumb_masked(action),
    {
        self.timeout_secs = timeout_secs;
        self.state = RunState::new();
        self.state.action(&self.image, self.probe_speed_khz)
    }

    /// Takes the answer to the action that was ordered last and orders the
    /// next.
    pub fn step(&mut self, event: ProbeEvent) -> (action: ProbeAction)
        ensures
            final(self).same_setup(old(self)),
            final(self).image() == old(self).image(),
            final(self).rtt_type() == old(self).rtt_type(),
            final(self).speed() == old(self).speed(),
            final(self).serial() == old(self).serial(),
            final(self).chip() == old(self).chip(),
            final(self).elf() == old(self).elf(),
            final(self).timeout() == old(self).timeout(),
            final(self).state() == next(old(self).state(), old(self).image(), old(self).timeout(), event@),
            action == action_of(
                final(self).state().phase,
                final(self).image(),
                final(self).state().word,
                final(self).speed(),
            ),
            image_wf(old(self).image()) ==> is_thumb_masked(action),
    {
        let action = self.state.step(&self.image, self.timeout_secs, self.probe_speed_khz, event);
        proof {
            if image_wf(self.image) {
                code_addresses_are_masked(
                    self.state@.phase,
                    self.image,
                    self.state@.word,
                    self.probe_speed_khz,
                );
            }
        }
        action
    }

    /// Whether the run is over.
    pub fn is_finished(&self) -> (r: bool)
        ensures
            r == (self.state().phase == crate::machine::Phase::Finished),
    {
        self.state.is_finished()
    }

    /// Reports the outcome of the run: the log of a run that passed, or the
    /// error of one that did not. Of a log in frames, `frames` are the
    /// outcomes of decoding the drained octets with the table of the image,
    /// in order. A run that is not over has not known what to report.
    pub fn conclude(self, frames: &[DecodeStep]) -> (r: Result<String, RunnerError>)
        ensures
            outcome_view(r) == match self.state().verdict {
                None => Err(RunnerErrorView::Other("The run is not over"@)),
                Some(verdict) => outcome_of(
                    verdict,
                    log_of(self.rtt_type(), self.state().buffer, views(frames@)),
                ),
            },
    {
        let Runner { rtt_type, state, .. } = self;
        let (verdict, buffer) = state.into_parts();
        match verdict {
            None => Err(RunnerError::Other(String::from_str("The run is not over"))),
            Some(verdict) => {
                let log = log_to_string(&rtt_type, buffer, frames);
                outcome(verdict, log)
            },
        }
    }
}

/// The report of a hardfault: the link register and every fault status
/// that is not zero, each in its own line; with a bus fault, the address at
/// fault where one is given.
pub open spec fn fault_report(lr: u32, cfsr: u32, bfar: Option<u32>) -> Seq<char> {
    let mmfsr = cfsr & 0xff;
    let bfsr = (cfsr >> 8) & 0xff;
    let ufsr = (cfsr >> 16) & 0xffff;
    let mem = if mmfsr != 0 {
        "  MemFault ("@ + hex_text(mmfsr as nat, 2) + ")\n"@
    } else {
        Seq::empty()
    };
    let address = match bfar {
        Some(a) => "    Offending address = "@ + hex_text(a as nat, 8) + "\n"@,
        None => Seq::empty(),
    };
    let bus = if bfsr != 0 {
        "  BusFault ("@ + hex_text(bfsr as nat, 2) + ")\n"@ + address
    } else {
        Seq::empty()
    };
    let usage = if ufsr != 0 {
        "  UsageFault ("@ + hex_text(ufsr as nat, 4) + ")\n"@
    } else {
        Seq::empty()
    };
    "  LR = "@ + hex_text(lr as nat, 2) + "\n"@ + mem + bus + usage
}

/// Writes the report of a hardfault.
pub fn make_fault_report(lr: u32, cfsr: u32, bfar: Option<u32>) -> (r: String)
    ensures
        r@ == fault_report(lr, cfsr, bfar),
{
    let mmfsr = cfsr & 0xff;
    let bfsr = (cfsr >> 8) & 0xff;
    let ufsr = (cfsr >> 16) & 0xffff;
    let mut s = String::from_str("  LR = ");
    push_hex(&mut s, lr, 2);
    s.append("\n");
    let ghost head = s@;
    assert(head =~= "  LR = "@ + hex_text(lr as nat, 2) + "\n"@);
    if mmfsr != 0 {
        s.append("  MemFault (");
        push_hex(&mut s, mmfsr, 2);
        s.append(")\n");
    }
    if bfsr != 0 {
        s.append("  BusFault (");
        push_hex(&mut s, bfsr, 2);
        s.append(")\n");
        match bfar {
            Some(a) => {
                s.append("    Offending address = ");
                push_hex(&mut s, a, 8);
                s.append("\n");
            },
            None => {},
        }
    }
    if ufsr != 0 {
        s.append("  UsageFault (");
        push_hex(&mut s, ufsr, 4);
        s.append(")\n");
    }
    assert(s@ =~= fault_report(lr, cfsr, bfar));
    s
}

/// The log, or nothing where there is none.
pub open spec fn log_or_empty(log: Result<Seq<char>, Seq<char>>) -> Seq<char> {
    match log {
        Ok(text) => text,
        Err(_) => Seq::empty(),
    }
}

/// The log as a plain sequence, or the message of why there is none.
pub open spec fn log_view(log: Result<String, String>) -> Result<Seq<char>, Seq<char>> {
    match log {
        Ok(text) => Ok(text@),
        Err(message) => Err(message@),
    }
}

/// The outcome of a run that ended with `verdict` and left `log`: a run on
/// which time ran out reports so, with what there is of the log; of the
/// others a log that could not be decoded is reported first; then a
/// hardfault, a halt for another reason, a core that is locked up, sleeps or
/// is in no known state, each with the log; a run that passed reports its
/// log.
pub open spec fn outcome_of(verdict: VerdictView, log: Result<Seq<char>, Seq<char>>) -> Result<
    Seq<char>,
    RunnerErrorView,
> {
    match verdict {
        VerdictView::Setup(error) => Err(error),
        VerdictView::Failed(error) => Err(error),
        VerdictView::Timeout => Err(
            RunnerErrorView::Other(
                "The firmware reached timeout, partial log:\n"@ + log_or_empty(log),
            ),
        ),
        _ => match log {
            Err(message) => Err(RunnerErrorView::Other(message)),
            Ok(text) => match verdict {
                VerdictView::FailedLate(error) => Err(error),
                VerdictView::Hardfault { lr, cfsr: None, bfar } => Err(
                    RunnerErrorView::Other(
                        "Core halted for hardfault (LR = "@ + hex_text(lr as nat, 8)
                            + "), partial log:\n"@ + text,
                    ),
                ),
                VerdictView::Hardfault { lr, cfsr: Some(cfsr), bfar } => Err(
                    RunnerErrorView::Other(
                        "Core halted for hardfault\n"@ + fault_report(lr, cfsr, bfar)
                            + "\nPartial log:\n"@ + text,
                    ),
                ),
                VerdictView::HaltedOther(reason) => Err(
                    RunnerErrorView::Other("Core halted for unknown reason: "@ + reason),
                ),
                VerdictView::LockedUp => Err(
                    RunnerErrorView::Other("Core locked up, partial log:\n"@ + text),
                ),
                VerdictView::Sleeping => Err(
                    RunnerErrorView::Other("Core sleeping, partial log:\n"@ + text),
                ),
                VerdictView::Unknown => Err(
                    RunnerErrorView::Other("Core status unknown, partial log:\n"@ + text),
                ),
                _ => Ok(text),
            },
        },
    }
}

/// The outcome as plain sequences.
pub open spec fn outcome_view(outcome: Result<String, RunnerError>) -> Result<
    Seq<char>,
    RunnerErrorView,
> {
    match outcome {
        Ok(text) => Ok(text@),
        Err(error) => Err(error@),
    }
}

/// A failure in words that end with a log.
fn with_log(lead: &str, log: &str) -> (r: Result<String, RunnerError>)
    ensures
        outcome_view(r) == Err::<Seq<char>, RunnerErrorView>(RunnerErrorView::Other(lead@ + log@)),
{
    let mut text = String::from_str(lead);
    text.append(log);
    Err(RunnerError::Other(text))
}

/// Works out what a run reports from how it ended and what its log says.
pub fn outcome(verdict: Verdict, log: Result<String, String>) -> (r: Result<String, RunnerError>)
    ensures
        outcome_view(r) == outcome_of(verdict@, log_view(log)),
{
    match verdict {
        Verdict::Setup(error) => Err(error),
        Verdict::Failed(error) => Err(error),
        Verdict::Timeout => {
            let text = match log {
                Ok(text) => text,
                Err(_) => String::new(),
            };
            with_log("The firmware reached timeout, partial log:\n", text.as_str())
        },
        verdict => {
            let text = match log {
                Ok(text) => text,
                Err(message) => {
                    return Err(RunnerError::Other(message));
                },
            };
            match verdict {
                Verdict::FailedLate(error) => Err(error),
                Verdict::Hardfault { lr, cfsr: None, bfar: _ } => {
                    let mut s = String::from_str("Core halted for hardfault (LR = ");
                    push_hex(&mut s, lr, 8);
                    s.append("), partial log:\n");
                    s.append(text.as_str());
                    assert(s@ =~= "Core halted for hardfault (LR = "@ + hex_text(lr as nat, 8)
                        + "), partial log:\n"@ + text@);
                    Err(RunnerError::Other(s))
                },
                Verdict::Hardfault { lr, cfsr: Some(cfsr), bfar } => {
                    let mut s = String::from_str("Core halted for hardfault\n");
                    s.append(make_fault_report(lr, cfsr, bfar).as_str());
                    s.append("\nPartial log:\n");
                    s.append(text.as_str());
                    assert(s@ =~= "Core halted for hardfault\n"@ + fault_report(lr, cfsr, bfar)
                        + "\nPartial log:\n"@ + text@);
                    Err(RunnerError::Other(s))
                },
                Verdict::HaltedOther(reason) => with_log(
                    "Core halted for unknown reason: ",
                    reason.as_str(),
                ),
                Verdict::LockedUp => with_log("Core locked up, partial log:\n", text.as_str()),
                Verdict::Sleeping => with_log("Core sleeping, partial log:\n", text.as_str()),
                Verdict::Unknown => with_log("Core status unknown, partial log:\n", text.as_str()),
                _ => Ok(text),
            }
        },
    }
}

/// What is stored of a run with the given outcome: the lines of the log of
/// a run that passed; the error, in words, of one that did not.
pub open spec fn details_of(outcome: Result<Seq<char>, RunnerErrorView>) -> RunResultDetailsView {
    match outcome {
        Ok(text) => RunResultDetailsView::Success { logs: crate::logs::lines_of(text) },
        Err(error) => RunResultDetailsView::Failure { error: error_text(error) },
    }
}

/// Turns the outcome of a run into what is stored of it.
pub fn run_details(outcome: Result<String, RunnerError>) -> (r: RunResultDetails)
    ensures
        r@ == details_of(outcome_view(outcome)),
{
    match outcome {
        Ok(text) => RunResultDetails::Success { logs: crate::logs::split_lines(text.as_str()) },
        Err(error) => RunResultDetails::Failure { error: error.message() },
    }
}

/// Index of the first probe at or after `start` whose serial is `wanted`.
pub open spec fn probe_index_from(
    serials: Seq<Option<Seq<char>>>,
    wanted: Seq<char>,
    start: int,
) -> Option<int>
    decreases serials.len() - start,
{
    if start < 0 || start >= serials.len() {
        None
    } else if serials[start] == Some(wanted) {
        Some(start)
    } else {
        probe_index_from(serials, wanted, start + 1)
    }
}

/// Picks, among the probes that are attached, the first with the serial
/// `wanted`; probes without a serial are passed over.
pub fn pick_probe(serials: &[Option<String>], wanted: &ProbeSerial) -> (r: Option<usize>)
    ensures
        match r {
            Some(i) => probe_index_from(crate::settings::serial_views(serials@), wanted@, 0)
                == Some(i as int) && i < serials@.len(),
            None => probe_index_from(crate::settings::serial_views(serials@), wanted@, 0) is None,
        },
{
    let ghost all = crate::settings::serial_views(serials@);
    let mut i: usize = 0;
    while i < serials.len()
        invariant
            i <= serials.len(),
            all == crate::settings::serial_views(serials@),
            probe_index_from(all, wanted@, 0) == probe_index_from(all, wanted@, i as int),
        decreases serials.len() - i,
    {
        match &serials[i] {
            Some(serial) => {
                assert(all[i as int] == Some(serial@));
                if *serial == wanted.0 {
                    return Some(i);
                }
            },
            None => {
                assert(all[i as int] is None);
            },
        }
        i += 1;
    }
    None
}

} // verus!
