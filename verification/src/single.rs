//! Jobs of one binary on one target, which is chosen by its probe, by its
//! chip or by the kind of its core.

use crate::ident::{ProbeAlias, ProbeSerial, TargetName};
use crate::logs::push_char;
use crate::model::views;
use vstd::prelude::*;
use vstd::string::StringExecFns;

verus! {

/// The kinds of cores that the service knows.
#[derive(Debug, Clone, Copy, PartialEq, Eq, Hash, Structural)]
pub enum CpuId {
    CortexM0,
    CortexM0Plus,
    CortexM1,
    CortexM3,
    CortexM4,
    CortexM7,
    CortexM23,
    CortexM33,
}

/// The part number under which a kind of core shows in the CPUID register.
pub open spec fn part_number(cpu: CpuId) -> u32 {
    match cpu {
        CpuId::CortexM0 => 0xc20,
        CpuId::CortexM0Plus => 0xc60,
        CpuId::CortexM1 => 0xc21,
        CpuId::CortexM3 => 0xc23,
        CpuId::CortexM4 => 0xc24,
        CpuId::CortexM7 => 0xc27,
        CpuId::CortexM23 => 0xd20,
        CpuId::CortexM33 => 0xd21,
    }
}

/// The kind of core with the given part number, if the service knows it.
pub open spec fn cpu_of_part(part: u32) -> Option<CpuId> {
    if part == 0xc20 {
        Some(CpuId::CortexM0)
    } else if part == 0xc60 {
        Some(CpuId::CortexM0Plus)
    } else if part == 0xc21 {
        Some(CpuId::CortexM1)
    } else if part == 0xc23 {
        Some(CpuId::CortexM3)
    } else if part == 0xc24 {
        Some(CpuId::CortexM4)
    } else if part == 0xc27 {
        Some(CpuId::CortexM7)
    } else if part == 0xd20 {
        Some(CpuId::CortexM23)
    } else if part == 0xd21 {
        Some(CpuId::CortexM33)
    } else {
        None
    }
}

/// The name of a kind of core, in lower case.
pub open spec fn cpu_name(cpu: CpuId) -> Seq<char> {
    match cpu {
        CpuId::CortexM0 => "cortexm0"@,
        CpuId::CortexM0Plus => "cortexm0plus"@,
        CpuId::CortexM1 => "cortexm1"@,
        CpuId::CortexM3 => "cortexm3"@,
        CpuId::CortexM4 => "cortexm4"@,
        CpuId::CortexM7 => "cortexm7"@,
        CpuId::CortexM23 => "cortexm23"@,
        CpuId::CortexM33 => "cortexm33"@,
    }
}

/// The kind of core of the given name in lower case, if the service knows it.
pub open spec fn cpu_of_name(name: Seq<char>) -> Option<CpuId> {
    if name == "cortexm0"@ {
        Some(CpuId::CortexM0)
    } else if name == "cortexm0plus"@ {
        Some(CpuId::CortexM0Plus)
    } else if name == "cortexm1"@ {
        Some(CpuId::CortexM1)
    } else if name == "cortexm3"@ {
        Some(CpuId::CortexM3)
    } else if name == "cortexm4"@ {
        Some(CpuId::CortexM4)
    } else if name == "cortexm7"@ {
        Some(CpuId::CortexM7)
    } else if name == "cortexm23"@ {
        Some(CpuId::CortexM23)
    } else if name == "cortexm33"@ {
        Some(CpuId::CortexM33)
    } else {
        None
    }
}

/// A character with a capital letter of ASCII turned into its small letter.
pub open spec fn lower_char(c: char) -> char {
    if 'A' <= c <= 'Z' {
        ((c as u8) + 32) as char
    } else {
        c
    }
}

/// A text with its capital letters of ASCII turned into small letters.
pub open spec fn lower(text: Seq<char>) -> Seq<char> {
    Seq::new(text.len(), |i: int| lower_char(text[i]))
}

/// Turns the capital letters of ASCII in a text into small letters.
pub fn to_lower(text: &str) -> (r: String)
    ensures
        r@ == lower(text@),
{
    let mut out = String::new();
    for c in it: text.chars()
        invariant
            it.seq() == text@,
            out@ == lower(text@.take(it.index() as int)),
    {
        if 'A' <= c && c <= 'Z' {
            push_char(&mut out, ((c as u8) + 32) as char);
        } else {
            push_char(&mut out, c);
        }
        assert(out@ =~= lower(text@.take(it.index() as int + 1)));
    }
    assert(text@.take(text@.len() as int) =~= text@);
    out
}

/// A name that is that of no kind of core.
#[derive(Debug, Clone)]
pub struct UnknownCpu {
    /// The name, in lower case.
    pub name: String,
}

impl UnknownCpu {
    /// The refusal in words.
    pub fn message(&self) -> (r: String)
        ensures
            r@ == "Unable to parse '"@ + self.name@ + "' to CpuId"@,
    {
        let mut s = String::from_str("Unable to parse '");
        s.append(self.name.as_str());
        s.append("' to CpuId");
        s
    }
}

impl CpuId {
    /// The part number under which the kind shows in the CPUID register.
    pub fn part(&self) -> (r: u32)
        ensures
            r == part_number(*self),
    {
        match self {
            CpuId::CortexM0 => 0xc20,
            CpuId::CortexM0Plus => 0xc60,
            CpuId::CortexM1 => 0xc21,
            CpuId::CortexM3 => 0xc23,
            CpuId::CortexM4 => 0xc24,
            CpuId::CortexM7 => 0xc27,
            CpuId::CortexM23 => 0xd20,
            CpuId::CortexM33 => 0xd21,
        }
    }

    /// The kind of core with the given part number.
    pub fn try_from_primitive(part: u32) -> (r: Option<CpuId>)
        ensures
            r == cpu_of_part(part),
    {
        if part == 0xc20 {
            Some(CpuId::CortexM0)
        } else if part == 0xc60 {
            Some(CpuId::CortexM0Plus)
        } else if part == 0xc21 {
            Some(CpuId::CortexM1)
        } else if part == 0xc23 {
            Some(CpuId::CortexM3)
        } else if part == 0xc24 {
            Some(CpuId::CortexM4)
        } else if part == 0xc27 {
            Some(CpuId::CortexM7)
        } else if part == 0xd20 {
            Some(CpuId::CortexM23)
        } else if part == 0xd21 {
            Some(CpuId::CortexM33)
        } else {
            None
        }
    }

    /// The kind of core that the CPUID register of a target tells of: its
    /// part number stands in bits 4 to 15.
    pub fn from_cpuid_register(value: u32) -> (r: Option<CpuId>)
        ensures
            r == cpu_of_part((value >> 4) & 0xfff),
    {
        CpuId::try_from_primitive((value >> 4) & 0xfff)
    }

    /// The kind of core of the given name, whatever the case of its letters.
    pub fn from_str(param: &str) -> (r: Result<CpuId, UnknownCpu>)
        ensures
            match r {
                Ok(cpu) => cpu_of_name(lower(param@)) == Some(cpu),
                Err(e) => cpu_of_name(lower(param@)) is None && e.name@ == lower(param@),
            },
    {
        let name = to_lower(param);
        if name == String::from_str("cortexm0") {
            Ok(CpuId::CortexM0)
        } else if name == String::from_str("cortexm0plus") {
            Ok(CpuId::CortexM0Plus)
        } else if name == String::from_str("cortexm1") {
            Ok(CpuId::CortexM1)
        } else if name == String::from_str("cortexm3") {
            Ok(CpuId::CortexM3)
        } else if name == String::from_str("cortexm4") {
            Ok(CpuId::CortexM4)
        } else if name == String::from_str("cortexm7") {
            Ok(CpuId::CortexM7)
        } else if name == String::from_str("cortexm23") {
            Ok(CpuId::CortexM23)
        } else if name == String::from_str("cortexm33") {
            Ok(CpuId::CortexM33)
        } else {
            Err(UnknownCpu { name })
        }
    }
}

/// Every kind of core is told by its part number.
pub proof fn part_numbers_tell_cores_apart(cpu: CpuId)
    ensures
        cpu_of_part(part_number(cpu)) == Some(cpu),
{
}

/// On which target a job should run.
#[derive(Debug, Clone)]
pub enum RunOn {
    /// On the target behind the probe with this serial.
    ProbeSerial(ProbeSerial),
    /// On the target behind the probe with this alias.
    ProbeAlias(ProbeAlias),
    /// On the target with this chip name.
    Target(TargetName),
    /// On a target with a core of this kind.
    Core(CpuId),
}

/// Mathematical model of a [`RunOn`].
pub enum RunOnView {
    ProbeSerial(Seq<char>),
    ProbeAlias(Seq<char>),
    Target(Seq<char>),
    Core(CpuId),
}

impl View for RunOn {
    type V = RunOnView;

    open spec fn view(&self) -> RunOnView {
        match self {
            RunOn::ProbeSerial(serial) => RunOnView::ProbeSerial(serial@),
            RunOn::ProbeAlias(alias) => RunOnView::ProbeAlias(alias@),
            RunOn::Target(name) => RunOnView::Target(name@),
            RunOn::Core(cpu) => RunOnView::Core(*cpu),
        }
    }
}

/// A selector is valid unless it names a probe or a chip by an empty text.
pub open spec fn valid_selector(run_on: RunOnView) -> bool {
    match run_on {
        RunOnView::ProbeSerial(serial) => serial.len() != 0,
        RunOnView::ProbeAlias(alias) => alias.len() != 0,
        RunOnView::Target(name) => name.len() != 0,
        RunOnView::Core(_) => true,
    }
}

impl RunOn {
    /// Whether the selector names anything.
    pub fn is_valid(&self) -> (r: bool)
        ensures
            r == valid_selector(self@),
    {
        match self {
            RunOn::ProbeSerial(serial) => !serial.as_str().is_empty(),
            RunOn::ProbeAlias(alias) => !alias.as_str().is_empty(),
            RunOn::Target(target) => !target.as_str().is_empty(),
            RunOn::Core(_) => true,
        }
    }

    /// The selector that a client asks for by the options it gives: the
    /// chip name counts before the kinds of core, these before the alias of
    /// the probe, and this before its serial.
    pub fn from_options(
        target: Option<String>,
        core: Option<CpuId>,
        probe_alias: Option<String>,
        probe_serial: Option<String>,
    ) -> (r: Option<RunOn>)
        ensures
            match r {
                Some(run_on) => run_on@ == match target {
                    Some(name) => RunOnView::Target(name@),
                    None => match core {
                        Some(cpu) => RunOnView::Core(cpu),
                        None => match probe_alias {
                            Some(alias) => RunOnView::ProbeAlias(alias@),
                            None => RunOnView::ProbeSerial(probe_serial->0@),
                        },
                    },
                },
                None => target is None && core is None && probe_alias is None && probe_serial
                    is None,
            },
            r is None ==> probe_serial is None,
    {
        match target {
            Some(name) => Some(RunOn::Target(TargetName(name))),
            None => match core {
                Some(cpu) => Some(RunOn::Core(cpu)),
                None => match probe_alias {
                    Some(alias) => Some(RunOn::ProbeAlias(ProbeAlias(alias))),
                    None => match probe_serial {
                        Some(serial) => Some(RunOn::ProbeSerial(ProbeSerial(serial))),
                        None => None,
                    },
                },
            },
        }
    }
}

/// A job: one binary for one target.
#[derive(Debug, Clone)]
pub struct RunJob {
    /// On which target the job should run.
    pub run_on: RunOn,
    /// The base64 text of the ELF file with the firmware.
    pub binary_b64: String,
    /// Timeout of the job in seconds.
    pub timeout_secs: u8,
}

/// The status of a job.
#[derive(Debug, Clone, PartialEq, Eq)]
pub enum JobStatus {
    /// No runner has taken the job yet.
    WaitingInQueue,
    /// A runner runs the job.
    Running,
    /// The job has finished; its log is there.
    Done {
        log: String,
    },
    /// The job has ended with an error.
    Error(String),
}

/// Mathematical model of a [`Target`].
pub struct TargetView {
    pub cpu_type: CpuId,
    pub probe_serial: Seq<char>,
    pub probe_alias: Seq<char>,
    pub target_name: Seq<char>,
}

/// An embedded target with the kind of its core.
#[derive(Debug, Clone)]
pub struct Target {
    /// Kind of the core of the target.
    pub cpu_type: CpuId,
    /// Serial of the probe to which the target is connected.
    pub probe_serial: ProbeSerial,
    /// Alias of that probe.
    pub probe_alias: ProbeAlias,
    /// Chip name of the target.
    pub target_name: TargetName,
}

impl View for Target {
    type V = TargetView;

    open spec fn view(&self) -> TargetView {
        TargetView {
            cpu_type: self.cpu_type,
            probe_serial: self.probe_serial@,
            probe_alias: self.probe_alias@,
            target_name: self.target_name@,
        }
    }
}

/// Index of the first target at or after `start` that satisfies `pred`.
pub open spec fn index_from(targets: Seq<TargetView>, pred: spec_fn(TargetView) -> bool, start: int) -> Option<
    int,
>
    decreases targets.len() - start,
{
    if start < 0 || start >= targets.len() {
        None
    } else if pred(targets[start]) {
        Some(start)
    } else {
        index_from(targets, pred, start + 1)
    }
}

/// The first target that satisfies `pred`, if any does.
pub open spec fn first(targets: Seq<TargetView>, pred: spec_fn(TargetView) -> bool) -> Option<
    TargetView,
> {
    match index_from(targets, pred, 0) {
        Some(i) => Some(targets[i]),
        None => None,
    }
}

/// The test "has a core of kind `cpu`".
pub open spec fn core_is(cpu: CpuId) -> spec_fn(TargetView) -> bool {
    |t: TargetView| t.cpu_type == cpu
}

/// The test "has probe serial `serial`".
pub open spec fn probe_is(serial: Seq<char>) -> spec_fn(TargetView) -> bool {
    |t: TargetView| t.probe_serial == serial
}

/// The test "has chip name `name`".
pub open spec fn chip_is(name: Seq<char>) -> spec_fn(TargetView) -> bool {
    |t: TargetView| t.target_name == name
}

/// The test "has probe alias `alias`".
pub open spec fn alias_is(alias: Seq<char>) -> spec_fn(TargetView) -> bool {
    |t: TargetView| t.probe_alias == alias
}

/// The model of a target that a search handed out, if it handed one out.
pub open spec fn found(r: Option<&Target>) -> Option<TargetView> {
    match r {
        Some(t) => Some(t@),
        None => None,
    }
}

/// A list of targets.
#[derive(Debug, Clone)]
pub struct Targets {
    targets: Vec<Target>,
}

impl View for Targets {
    type V = Seq<TargetView>;

    closed spec fn view(&self) -> Seq<TargetView> {
        views(self.targets@)
    }
}

impl Targets {
    /// The list of `targets`.
    pub fn new(targets: Vec<Target>) -> (r: Self)
        ensures
            r@ == views(targets@),
    {
        Targets { targets }
    }

    /// The first target with a core of kind `core`.
    pub fn get_core(&self, core: &CpuId) -> (r: Option<&Target>)
        ensures
            found(r) == first(self@, core_is(*core)),
    {
        let mut i: usize = 0;
        while i < self.targets.len()
            invariant
                i <= self.targets.len(),
                index_from(self@, core_is(*core), 0) == index_from(self@, core_is(*core), i as int),
            decreases self.targets.len() - i,
        {
            assert(self@[i as int] == self.targets@[i as int]@);
            if self.targets[i].cpu_type == *core {
                assert(core_is(*core)(self@[i as int]));
                return Some(&self.targets[i]);
            }
            assert(!core_is(*core)(self@[i as int]));
            i += 1;
        }
        None
    }

    /// The first target behind the probe with serial `probe_serial`.
    pub fn get_probe(&self, probe_serial: &ProbeSerial) -> (r: Option<&Target>)
        ensures
            found(r) == first(self@, probe_is(probe_serial@)),
    {
        let mut i: usize = 0;
        while i < self.targets.len()
            invariant
                i <= self.targets.len(),
                index_from(self@, probe_is(probe_serial@), 0) == index_from(
                    self@,
                    probe_is(probe_serial@),
                    i as int,
                ),
            decreases self.targets.len() - i,
        {
            assert(self@[i as int] == self.targets@[i as int]@);
            if self.targets[i].probe_serial == *probe_serial {
                assert(probe_is(probe_serial@)(self@[i as int]));
                return Some(&self.targets[i]);
            }
            assert(!probe_is(probe_serial@)(self@[i as int]));
            i += 1;
        }
        None
    }

    /// The first target with chip name `target_name`.
    pub fn get_target(&self, target_name: &TargetName) -> (r: Option<&Target>)
        ensures
            found(r) == first(self@, chip_is(target_name@)),
    {
        let mut i: usize = 0;
        while i < self.targets.len()
            invariant
                i <= self.targets.len(),
                index_from(self@, chip_is(target_name@), 0) == index_from(
                    self@,
                    chip_is(target_name@),
                    i as int,
                ),
            decreases self.targets.len() - i,
        {
            assert(self@[i as int] == self.targets@[i as int]@);
            if self.targets[i].target_name == *target_name {
                assert(chip_is(target_name@)(self@[i as int]));
                return Some(&self.targets[i]);
            }
            assert(!chip_is(target_name@)(self@[i as int]));
            i += 1;
        }
        None
    }

    /// The first target behind the probe with alias `probe_alias`.
    pub fn get_probe_alias(&self, probe_alias: &ProbeAlias) -> (r: Option<&Target>)
        ensures
            found(r) == first(self@, alias_is(probe_alias@)),
    {
        let mut i: usize = 0;
        while i < self.targets.len()
            invariant
                i <= self.targets.len(),
                index_from(self@, alias_is(probe_alias@), 0) == index_from(
                    self@,
                    alias_is(probe_alias@),
                    i as int,
                ),
            decreases self.targets.len() - i,
        {
            assert(self@[i as int] == self.targets@[i as int]@);
            if self.targets[i].probe_alias == *probe_alias {
                assert(alias_is(probe_alias@)(self@[i as int]));
                return Some(&self.targets[i]);
            }
            assert(!alias_is(probe_alias@)(self@[i as int]));
            i += 1;
        }
        None
    }

    /// All targets, in their order.
    pub fn all_targets(&self) -> (r: &[Target])
        ensures
            views(r@) == self@,
    {
        self.targets.as_slice()
    }
}

} // verus!
