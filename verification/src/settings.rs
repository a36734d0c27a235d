//! Settings of a server: the probes it is told about, the tokens it accepts
//! and its limits.

use crate::ident::{AuthName, AuthToken, ProbeAlias, ProbeSerial, TargetGroup, TargetName};
use crate::model::views;
use crate::target::{has_serial, DuplicateSerial, Target, TargetView, Targets};
use crate::unord::UnordEqVec;
use vstd::prelude::*;
use vstd::string::StringExecFns;

verus! {

/// Mathematical model of a [`ProbeInfo`].
pub struct ProbeInfoView {
    pub target_name: Seq<char>,
    pub probe_alias: Seq<char>,
    pub groups: Seq<Seq<char>>,
    pub probe_speed_khz: Option<u32>,
}

/// What is configured for one probe.
#[derive(Debug, Clone)]
pub struct ProbeInfo {
    /// Chip name of the target behind the probe.
    pub target_name: TargetName,
    /// Alias of the probe; may be empty.
    pub probe_alias: ProbeAlias,
    /// Groups to which the target belongs.
    pub groups: Vec<TargetGroup>,
    /// Clock speed to set on the probe, in kHz.
    pub probe_speed_khz: Option<u32>,
}

impl View for ProbeInfo {
    type V = ProbeInfoView;

    open spec fn view(&self) -> ProbeInfoView {
        ProbeInfoView {
            target_name: self.target_name@,
            probe_alias: self.probe_alias@,
            groups: views(self.groups@),
            probe_speed_khz: self.probe_speed_khz,
        }
    }
}

/// Mathematical model of a [`ProbeConfig`].
pub struct ProbeConfigView {
    pub probe_serial: Seq<char>,
    pub info: ProbeInfoView,
}

/// The configuration of the probe with a given serial.
#[derive(Debug, Clone)]
pub struct ProbeConfig {
    /// Serial of the probe.
    pub probe_serial: ProbeSerial,
    /// What is configured for it.
    pub info: ProbeInfo,
}

impl View for ProbeConfig {
    type V = ProbeConfigView;

    open spec fn view(&self) -> ProbeConfigView {
        ProbeConfigView { probe_serial: self.probe_serial@, info: self.info@ }
    }
}

/// Index of the first configuration at or after `start` for the probe with
/// serial `serial`.
pub open spec fn config_index_from(configs: Seq<ProbeConfigView>, serial: Seq<char>, start: int) -> Option<
    int,
>
    decreases configs.len() - start,
{
    if start < 0 || start >= configs.len() {
        None
    } else if configs[start].probe_serial == serial {
        Some(start)
    } else {
        config_index_from(configs, serial, start + 1)
    }
}

/// What is configured for the probe with serial `serial`, if anything.
pub open spec fn config_of(configs: Seq<ProbeConfigView>, serial: Seq<char>) -> Option<
    ProbeInfoView,
> {
    match config_index_from(configs, serial, 0) {
        Some(i) => Some(configs[i].info),
        None => None,
    }
}

/// What is configured for the probe with serial `probe_serial`, if anything.
pub fn find_config<'a>(probe_configs: &'a [ProbeConfig], probe_serial: &ProbeSerial) -> (r: Option<
    &'a ProbeInfo,
>)
    ensures
        match r {
            Some(info) => config_of(views(probe_configs@), probe_serial@) == Some(info@),
            None => config_of(views(probe_configs@), probe_serial@) is None,
        },
{
    let mut i: usize = 0;
    while i < probe_configs.len()
        invariant
            i <= probe_configs.len(),
            config_index_from(views(probe_configs@), probe_serial@, 0) == config_index_from(
                views(probe_configs@),
                probe_serial@,
                i as int,
            ),
        decreases probe_configs.len() - i,
    {
        assert(views(probe_configs@)[i as int] == probe_configs@[i as int]@);
        if probe_configs[i].probe_serial == *probe_serial {
            return Some(&probe_configs[i].info);
        }
        i += 1;
    }
    None
}

/// Longest time, in seconds, that a job may occupy a target.
#[derive(Debug, Clone, Copy, PartialEq, Eq, Structural)]
pub struct Timeout(pub u32);

impl Default for Timeout {
    fn default() -> (r: Self)
        ensures
            r.0 == 30,
    {
        Timeout(30)
    }
}

/// How many jobs may wait in the queue, and how many results are kept.
#[derive(Debug, Clone, Copy, PartialEq, Eq, Structural)]
pub struct MaxJobsInQueue(pub usize);

impl Default for MaxJobsInQueue {
    fn default() -> (r: Self)
        ensures
            r.0 == 40,
    {
        MaxJobsInQueue(40)
    }
}

/// Limits of a server.
#[derive(Debug, Clone, Copy, PartialEq, Eq, Structural)]
pub struct ServerConfigs {
    /// Longest time that a job may occupy a target.
    pub max_target_timeout: Timeout,
    /// Capacity of the queue of jobs and of the store of results.
    pub max_jobs_in_queue: MaxJobsInQueue,
}

impl Default for ServerConfigs {
    fn default() -> (r: Self)
        ensures
            r.max_target_timeout.0 == 30,
            r.max_jobs_in_queue.0 == 40,
    {
        ServerConfigs { max_target_timeout: Timeout(30), max_jobs_in_queue: MaxJobsInQueue(40) }
    }
}

/// A named authorization token.
#[derive(Debug, Clone)]
pub struct AuthEntry {
    /// Name of the token.
    pub name: AuthName,
    /// The token.
    pub token: AuthToken,
}

/// Mathematical model of an [`AuthEntry`].
pub struct AuthEntryView {
    pub name: Seq<char>,
    pub token: Seq<char>,
}

impl View for AuthEntry {
    type V = AuthEntryView;

    open spec fn view(&self) -> AuthEntryView {
        AuthEntryView { name: self.name@, token: self.token@ }
    }
}

/// What is wrong with the settings.
#[derive(Debug, Clone, Copy, PartialEq, Eq, Structural)]
pub enum SettingsError {
    /// An authorization token has no name.
    TokenNameMissing,
    /// An authorization token has no value.
    TokenValueMissing,
    /// A probe configuration has no probe serial.
    ProbeSerialMissing,
    /// A probe configuration has no chip name.
    TargetNameMissing,
    /// Two authorization tokens are kept under one name.
    TokenNameTwice,
    /// Two probe configurations are for one probe serial.
    ProbeSerialTwice,
}

impl SettingsError {
    /// The error in words.
    pub fn message(&self) -> (r: &'static str)
        ensures
            r@ == match *self {
                SettingsError::TokenNameMissing =>
                    "Invalid authorization tokens detected, name is not filled"@,
                SettingsError::TokenValueMissing =>
                    "Invalid authorization tokens detected, value is not filled"@,
                SettingsError::ProbeSerialMissing =>
                    "Invalid probe config detected, probe serial is not filled"@,
                SettingsError::TargetNameMissing =>
                    "Invalid probe config detected, 'target_name' is not filled"@,
                SettingsError::TokenNameTwice =>
                    "Invalid authorization tokens detected, a name occurs twice"@,
                SettingsError::ProbeSerialTwice =>
                    "Invalid probe config detected, a probe serial occurs twice"@,
            },
    {
        match self {
            SettingsError::TokenNameMissing =>
                "Invalid authorization tokens detected, name is not filled",
            SettingsError::TokenValueMissing =>
                "Invalid authorization tokens detected, value is not filled",
            SettingsError::ProbeSerialMissing =>
                "Invalid probe config detected, probe serial is not filled",
            SettingsError::TargetNameMissing =>
                "Invalid probe config detected, 'target_name' is not filled",
            SettingsError::TokenNameTwice =>
                "Invalid authorization tokens detected, a name occurs twice",
            SettingsError::ProbeSerialTwice =>
                "Invalid probe config detected, a probe serial occurs twice",
        }
    }
}

/// Mathematical model of [`SavedSettings`].
pub struct SavedSettingsView {
    pub auth_tokens: Option<Seq<AuthEntryView>>,
    pub probe_configs: Seq<ProbeConfigView>,
    pub server_configs: ServerConfigs,
}

/// No two tokens are kept under one name.
pub open spec fn names_occur_once(tokens: Seq<AuthEntryView>) -> bool {
    forall|i: int, j: int| 0 <= i < j < tokens.len() ==> tokens[i].name != tokens[j].name
}

/// No two configurations are for one probe serial.
pub open spec fn serials_occur_once(configs: Seq<ProbeConfigView>) -> bool {
    forall|i: int, j: int|
        0 <= i < j < configs.len() ==> configs[i].probe_serial != configs[j].probe_serial
}

impl SavedSettingsView {
    /// The settings are keyed: a name stands for one token, a probe serial
    /// for one configuration.
    pub open spec fn wf(self) -> bool {
        &&& self.auth_tokens matches Some(tokens) ==> names_occur_once(tokens)
        &&& serials_occur_once(self.probe_configs)
    }
}

/// The first thing wrong with a token: its name is looked at before its
/// value.
pub open spec fn token_fault(entry: AuthEntryView) -> Option<SettingsError> {
    if entry.name.len() == 0 {
        Some(SettingsError::TokenNameMissing)
    } else if entry.token.len() == 0 {
        Some(SettingsError::TokenValueMissing)
    } else {
        None
    }
}

/// The first thing wrong with a probe configuration: its serial is looked at
/// before its chip name.
pub open spec fn config_fault(config: ProbeConfigView) -> Option<SettingsError> {
    if config.probe_serial.len() == 0 {
        Some(SettingsError::ProbeSerialMissing)
    } else if config.info.target_name.len() == 0 {
        Some(SettingsError::TargetNameMissing)
    } else {
        None
    }
}

/// The fault of the first faulty token at or after `start`.
pub open spec fn first_token_fault(tokens: Seq<AuthEntryView>, start: int) -> Option<SettingsError>
    decreases tokens.len() - start,
{
    if start < 0 || start >= tokens.len() {
        None
    } else if token_fault(tokens[start]) is Some {
        token_fault(tokens[start])
    } else {
        first_token_fault(tokens, start + 1)
    }
}

/// The fault of the first faulty probe configuration at or after `start`.
pub open spec fn first_config_fault(configs: Seq<ProbeConfigView>, start: int) -> Option<
    SettingsError,
>
    decreases configs.len() - start,
{
    if start < 0 || start >= configs.len() {
        None
    } else if config_fault(configs[start]) is Some {
        config_fault(configs[start])
    } else {
        first_config_fault(configs, start + 1)
    }
}

/// The first thing wrong with the settings, tokens before probes; nothing
/// where every token has a name and a value and every probe a serial and a
/// chip name.
pub open spec fn first_fault(settings: SavedSettingsView) -> Option<SettingsError> {
    let among_tokens = match settings.auth_tokens {
        Some(tokens) => first_token_fault(tokens, 0),
        None => None,
    };
    if among_tokens is Some {
        among_tokens
    } else {
        first_config_fault(settings.probe_configs, 0)
    }
}

/// The settings that a server keeps in its configuration file. The tokens
/// are keyed by their names and the probe configurations by their serials:
/// no name and no serial occurs twice.
#[derive(Debug)]
pub struct SavedSettings {
    /// The tokens that clients may present; none where access is open.
    auth_tokens: Option<Vec<AuthEntry>>,
    /// The probes that the server is told about.
    probe_configs: Vec<ProbeConfig>,
    /// The limits of the server.
    server_configs: ServerConfigs,
}

impl View for SavedSettings {
    type V = SavedSettingsView;

    closed spec fn view(&self) -> SavedSettingsView {
        SavedSettingsView {
            auth_tokens: match self.auth_tokens {
                Some(tokens) => Some(views(tokens@)),
                None => None,
            },
            probe_configs: views(self.probe_configs@),
            server_configs: self.server_configs,
        }
    }
}

impl SavedSettings {
    /// Every settings value that exists is keyed.
    #[verifier::type_invariant]
    pub closed spec fn inv(self) -> bool {
        self@.wf()
    }

    /// What the invariant of the type says of the model.
    pub proof fn inv_is_wf(self)
        requires
            self.inv(),
        ensures
            self@.wf(),
    {
    }
}

impl Default for SavedSettings {
    fn default() -> (r: Self)
        ensures
            r@.auth_tokens is None,
            r@.probe_configs == Seq::<ProbeConfigView>::empty(),
            r@.server_configs.max_target_timeout.0 == 30,
            r@.server_configs.max_jobs_in_queue.0 == 40,
            r@.wf(),
    {
        let r = SavedSettings {
            auth_tokens: None,
            probe_configs: Vec::new(),
            server_configs: ServerConfigs::default(),
        };
        assert(r@.probe_configs =~= Seq::<ProbeConfigView>::empty());
        r
    }
}

/// The fault of the first faulty token, if any is faulty.
fn check_tokens(tokens: &Vec<AuthEntry>) -> (r: Option<SettingsError>)
    ensures
        r == first_token_fault(views(tokens@), 0),
{
    let mut i: usize = 0;
    while i < tokens.len()
        invariant
            i <= tokens.len(),
            first_token_fault(views(tokens@), 0) == first_token_fault(views(tokens@), i as int),
        decreases tokens.len() - i,
    {
        assert(views(tokens@)[i as int] == tokens@[i as int]@);
        if tokens[i].name.as_str().is_empty() {
            return Some(SettingsError::TokenNameMissing);
        }
        if tokens[i].token.as_str().is_empty() {
            return Some(SettingsError::TokenValueMissing);
        }
        i += 1;
    }
    None
}

/// The fault of the first faulty probe configuration, if any is faulty.
fn check_configs(configs: &Vec<ProbeConfig>) -> (r: Option<SettingsError>)
    ensures
        r == first_config_fault(views(configs@), 0),
{
    let mut i: usize = 0;
    while i < configs.len()
        invariant
            i <= configs.len(),
            first_config_fault(views(configs@), 0) == first_config_fault(views(configs@), i as int),
        decreases configs.len() - i,
    {
        assert(views(configs@)[i as int] == configs@[i as int]@);
        if configs[i].probe_serial.as_str().is_empty() {
            return Some(SettingsError::ProbeSerialMissing);
        }
        if configs[i].info.target_name.as_str().is_empty() {
            return Some(SettingsError::TargetNameMissing);
        }
        i += 1;
    }
    None
}

/// Whether no two tokens are kept under one name.
fn tokens_occur_once(tokens: &Vec<AuthEntry>) -> (r: bool)
    ensures
        r == names_occur_once(views(tokens@)),
{
    let ghost model = views(tokens@);
    let mut j: usize = 0;
    while j < tokens.len()
        invariant
            j <= tokens.len(),
            model == views(tokens@),
            forall|a: int, b: int| 0 <= a < b < j ==> model[a].name != model[b].name,
        decreases tokens.len() - j,
    {
        let mut i: usize = 0;
        while i < j
            invariant
                i <= j < tokens.len(),
                model == views(tokens@),
                forall|a: int| 0 <= a < i ==> model[a].name != model[j as int].name,
            decreases j - i,
        {
            assert(model[i as int] == tokens@[i as int]@);
            assert(model[j as int] == tokens@[j as int]@);
            if tokens[i].name == tokens[j].name {
                assert(model[i as int].name == model[j as int].name);
                return false;
            }
            i += 1;
        }
        j += 1;
    }
    true
}

/// Whether no two configurations are for one probe serial.
fn configs_occur_once(configs: &Vec<ProbeConfig>) -> (r: bool)
    ensures
        r == serials_occur_once(views(configs@)),
{
    let ghost model = views(configs@);
    let mut j: usize = 0;
    while j < configs.len()
        invariant
            j <= configs.len(),
            model == views(configs@),
            forall|a: int, b: int|
                0 <= a < b < j ==> model[a].probe_serial != model[b].probe_serial,
        decreases configs.len() - j,
    {
        let mut i: usize = 0;
        while i < j
            invariant
                i <= j < configs.len(),
                model == views(configs@),
                forall|a: int| 0 <= a < i ==> model[a].probe_serial != model[j as int].probe_serial,
            decreases j - i,
        {
            assert(model[i as int] == configs@[i as int]@);
            assert(model[j as int] == configs@[j as int]@);
            if configs[i].probe_serial == configs[j].probe_serial {
                assert(model[i as int].probe_serial == model[j as int].probe_serial);
                return false;
            }
            i += 1;
        }
        j += 1;
    }
    true
}

/// What stands in the way of keeping tokens and probe configurations as
/// settings: a name that occurs twice among the tokens, which are looked at
/// first, or a probe serial that occurs twice among the configurations.
pub open spec fn key_fault(
    auth_tokens: Option<Seq<AuthEntryView>>,
    probe_configs: Seq<ProbeConfigView>,
) -> Option<SettingsError> {
    if auth_tokens matches Some(tokens) && !names_occur_once(tokens) {
        Some(SettingsError::TokenNameTwice)
    } else if !serials_occur_once(probe_configs) {
        Some(SettingsError::ProbeSerialTwice)
    } else {
        None
    }
}

/// The tokens as plain values.
pub open spec fn token_views(auth_tokens: Option<Vec<AuthEntry>>) -> Option<Seq<AuthEntryView>> {
    match auth_tokens {
        Some(tokens) => Some(views(tokens@)),
        None => None,
    }
}

impl SavedSettings {
    /// Makes settings of tokens, probe configurations and limits. Tokens
    /// that share a name are refused, and so are configurations that share a
    /// probe serial.
    pub fn new(
        auth_tokens: Option<Vec<AuthEntry>>,
        probe_configs: Vec<ProbeConfig>,
        server_configs: ServerConfigs,
    ) -> (r: Result<SavedSettings, SettingsError>)
        ensures
            match r {
                Ok(settings) => {
                    &&& key_fault(token_views(auth_tokens), views(probe_configs@)) is None
                    &&& settings@ == (SavedSettingsView {
                        auth_tokens: token_views(auth_tokens),
                        probe_configs: views(probe_configs@),
                        server_configs,
                    })
                    &&& settings@.wf()
                },
                Err(e) => key_fault(token_views(auth_tokens), views(probe_configs@)) == Some(e),
            },
    {
        let names_once = match &auth_tokens {
            Some(tokens) => tokens_occur_once(tokens),
            None => true,
        };
        if !names_once {
            return Err(SettingsError::TokenNameTwice);
        }
        if !configs_occur_once(&probe_configs) {
            return Err(SettingsError::ProbeSerialTwice);
        }
        Ok(SavedSettings { auth_tokens, probe_configs, server_configs })
    }

    /// The tokens that clients may present; none where access is open.
    pub fn auth_tokens(&self) -> (r: &Option<Vec<AuthEntry>>)
        ensures
            token_views(*r) == self@.auth_tokens,
            self@.wf(),
    {
        proof {
            use_type_invariant(self);
        }
        &self.auth_tokens
    }

    /// The probes that the server is told about.
    pub fn probe_configs(&self) -> (r: &Vec<ProbeConfig>)
        ensures
            views(r@) == self@.probe_configs,
            self@.wf(),
    {
        proof {
            use_type_invariant(self);
        }
        &self.probe_configs
    }

    /// The limits of the server.
    pub fn server_configs(&self) -> (r: ServerConfigs)
        ensures
            r == self@.server_configs,
    {
        self.server_configs
    }

    /// Gives the tokens, the probe configurations and the limits out.
    pub fn into_parts(self) -> (r: (Option<Vec<AuthEntry>>, Vec<ProbeConfig>, ServerConfigs))
        ensures
            token_views(r.0) == self@.auth_tokens,
            views(r.1@) == self@.probe_configs,
            r.2 == self@.server_configs,
            self@.wf(),
    {
        proof {
            use_type_invariant(&self);
        }
        (self.auth_tokens, self.probe_configs, self.server_configs)
    }

    /// Checks that every token has a name and a value and that every probe
    /// configuration has a serial and a chip name; reports the first fault.
    pub fn validate(&self) -> (r: Result<(), SettingsError>)
        ensures
            match r {
                Ok(()) => first_fault(self@) is None,
                Err(e) => first_fault(self@) == Some(e),
            },
    {
        match &self.auth_tokens {
            Some(tokens) => match check_tokens(tokens) {
                Some(fault) => {
                    return Err(fault);
                },
                None => {},
            },
            None => {},
        }
        match check_configs(&self.probe_configs) {
            Some(fault) => Err(fault),
            None => Ok(()),
        }
    }
}

/// The target that a configuration describes behind the probe with serial
/// `serial`.
pub open spec fn configured_target(serial: Seq<char>, info: ProbeInfoView) -> TargetView {
    TargetView {
        probe_serial: serial,
        probe_alias: info.probe_alias,
        target_name: info.target_name,
        groups: info.groups,
    }
}

/// The inventory made of the first `n` probes found: each probe that has a
/// serial and a configuration gives a target; one whose serial the inventory
/// already holds is refused, and with it the whole inventory.
pub open spec fn inventory_upto(
    configs: Seq<ProbeConfigView>,
    found: Seq<Option<Seq<char>>>,
    n: nat,
) -> Result<Seq<TargetView>, Seq<char>>
    decreases n,
{
    if n == 0 {
        Ok(Seq::empty())
    } else {
        match inventory_upto(configs, found, (n - 1) as nat) {
            Err(serial) => Err(serial),
            Ok(targets) => match found[n - 1] {
                None => Ok(targets),
                Some(serial) => match config_of(configs, serial) {
                    None => Ok(targets),
                    Some(info) => if has_serial(targets, serial) {
                        Err(serial)
                    } else {
                        Ok(targets.push(configured_target(serial, info)))
                    },
                },
            },
        }
    }
}

/// What [`from_cli`] owes for the configurations and the probes found.
pub open spec fn inventory_of(
    configs: Seq<ProbeConfigView>,
    found: Seq<Option<Seq<char>>>,
    outcome: Result<Targets, DuplicateSerial>,
) -> bool {
    match outcome {
        Ok(targets) => inventory_upto(configs, found, found.len()) == Ok::<
            Seq<TargetView>,
            Seq<char>,
        >(targets@),
        Err(e) => inventory_upto(configs, found, found.len()) == Err::<Seq<TargetView>, Seq<char>>(
            e.probe_serial@,
        ),
    }
}

/// The serials of the probes found, as plain sequences.
pub open spec fn serial_views(found: Seq<Option<String>>) -> Seq<Option<Seq<char>>> {
    Seq::new(
        found.len(),
        |i: int|
            match found[i] {
                Some(s) => Some(s@),
                None => None,
            },
    )
}

/// Makes the inventory from the configured probes and the serial numbers of
/// the probes that are attached, in the order in which they were found. A
/// probe without a serial or without a configuration is passed over.
pub fn from_cli(target_settings: &[ProbeConfig], found: &[Option<String>]) -> (r: Result<
    Targets,
    DuplicateSerial,
>)
    ensures
        inventory_of(views(target_settings@), serial_views(found@), r),
        r matches Ok(targets) ==> crate::target::unique_serials(targets@),
{
    let ghost configs = views(target_settings@);
    let ghost serials = serial_views(found@);
    let mut targets = Targets::new();
    let mut i: usize = 0;
    while i < found.len()
        invariant
            i <= found.len(),
            configs == views(target_settings@),
            serials == serial_views(found@),
            inventory_upto(configs, serials, i as nat) == Ok::<Seq<TargetView>, Seq<char>>(targets@),
            crate::target::unique_serials(targets@),
        decreases found.len() - i,
    {
        match &found[i] {
            Some(serial_number) => {
                let probe_serial = ProbeSerial(serial_number.clone());
                assert(serials[i as int] == Some(probe_serial@));
                match find_config(target_settings, &probe_serial) {
                    Some(info) => {
                        let target = Target {
                            probe_serial,
                            probe_alias: info.probe_alias.clone(),
                            target_name: info.target_name.clone(),
                            groups: clone_group_list(&info.groups),
                        };
                        assert(target@ == configured_target(serial_number@, info@));
                        match targets.push(target) {
                            Ok(()) => {},
                            Err(e) => {
                                proof {
                                    refusal_stays(configs, serials, (i + 1) as nat, found@.len());
                                }
                                return Err(e);
                            },
                        }
                    },
                    None => {},
                }
            },
            None => {
                assert(serials[i as int] is None);
            },
        }
        i += 1;
    }
    Ok(targets)
}

/// A copy of a list of groups, as the groups of a target.
fn clone_group_list(groups: &Vec<TargetGroup>) -> (r: UnordEqVec<TargetGroup>)
    ensures
        views(r@) == views(groups@),
{
    let mut out: Vec<TargetGroup> = Vec::new();
    let mut i: usize = 0;
    while i < groups.len()
        invariant
            i <= groups.len(),
            out@.len() == i,
            forall|k: int| 0 <= k < i ==> (#[trigger] out@[k])@ == groups@[k]@,
        decreases groups.len() - i,
    {
        out.push(groups[i].clone());
        i += 1;
    }
    assert(views(out@) =~= views(groups@));
    UnordEqVec(out)
}

/// Once a probe was refused, the inventory stays refused.
proof fn refusal_stays(
    configs: Seq<ProbeConfigView>,
    found: Seq<Option<Seq<char>>>,
    m: nat,
    n: nat,
)
    requires
        m <= n,
        inventory_upto(configs, found, m) is Err,
    ensures
        inventory_upto(configs, found, n) == inventory_upto(configs, found, m),
    decreases n,
{
    if m < n {
        refusal_stays(configs, found, m, (n - 1) as nat);
    }
}

/// The line that shows a token.
pub open spec fn token_line(entry: AuthEntryView) -> Seq<char> {
    "    - "@ + entry.name + ": "@ + entry.token + "\n"@
}

/// The lines that show the first `n` tokens.
pub open spec fn token_lines_upto(tokens: Seq<AuthEntryView>, n: nat) -> Seq<char>
    decreases n,
{
    if n == 0 {
        Seq::empty()
    } else {
        token_lines_upto(tokens, (n - 1) as nat) + token_line(tokens[n - 1])
    }
}

/// The line that shows the configuration of a probe: its serial, the chip
/// name, the alias or `None` where it is empty, and the clock speed where
/// one is set.
pub open spec fn config_line(config: ProbeConfigView) -> Seq<char> {
    let alias = if config.info.probe_alias.len() == 0 {
        "None"@
    } else {
        config.info.probe_alias
    };
    let speed = match config.info.probe_speed_khz {
        Some(khz) => ", probe_speed_khz: "@ + crate::text::decimal(khz as nat),
        None => Seq::empty(),
    };
    "    - "@ + config.probe_serial + ": { target_name: "@ + config.info.target_name
        + ", probe_alias: "@ + alias + speed + " }\n"@
}

/// The lines that show the first `n` probe configurations.
pub open spec fn config_lines_upto(configs: Seq<ProbeConfigView>, n: nat) -> Seq<char>
    decreases n,
{
    if n == 0 {
        Seq::empty()
    } else {
        config_lines_upto(configs, (n - 1) as nat) + config_line(configs[n - 1])
    }
}

/// The settings as they are shown when a server starts.
pub open spec fn settings_text(settings: SavedSettingsView) -> Seq<char> {
    let tokens = match settings.auth_tokens {
        Some(tokens) => "  - Auth tokens:\n"@ + token_lines_upto(tokens, tokens.len()),
        None => "  - Auth tokens: None\n"@,
    };
    "\n"@ + tokens + "\n  - Probe configs:\n"@ + config_lines_upto(
        settings.probe_configs,
        settings.probe_configs.len(),
    ) + "\n  - Server configs:\n    - max_target_timeout: "@ + crate::text::decimal(
        settings.server_configs.max_target_timeout.0 as nat,
    ) + " seconds\n    - max_jobs_in_queue: "@ + crate::text::decimal(
        settings.server_configs.max_jobs_in_queue.0 as nat,
    ) + "\n"@
}

/// Appends the line that shows a token.
fn push_token_line(s: &mut String, entry: &AuthEntry)
    ensures
        final(s)@ == old(s)@ + token_line(entry@),
{
    s.append("    - ");
    s.append(entry.name.as_str());
    s.append(": ");
    s.append(entry.token.as_str());
    s.append("\n");
    assert(s@ =~= old(s)@ + token_line(entry@));
}

/// Appends the line that shows the configuration of a probe.
fn push_config_line(s: &mut String, config: &ProbeConfig)
    ensures
        final(s)@ == old(s)@ + config_line(config@),
{
    s.append("    - ");
    s.append(config.probe_serial.as_str());
    s.append(": { target_name: ");
    s.append(config.info.target_name.as_str());
    s.append(", probe_alias: ");
    if config.info.probe_alias.as_str().is_empty() {
        s.append("None");
    } else {
        s.append(config.info.probe_alias.as_str());
    }
    match config.info.probe_speed_khz {
        Some(khz) => {
            s.append(", probe_speed_khz: ");
            crate::text::push_decimal(s, khz as usize);
        },
        None => {},
    }
    s.append(" }\n");
    assert(s@ =~= old(s)@ + config_line(config@));
}

impl SavedSettings {
    /// Shows the settings: the tokens, the probes and the limits.
    pub fn describe(&self) -> (r: String)
        ensures
            r@ == settings_text(self@),
    {
        let mut s = String::from_str("\n");
        match &self.auth_tokens {
            Some(tokens) => {
                s.append("  - Auth tokens:\n");
                let ghost head = s@;
                let mut i: usize = 0;
                while i < tokens.len()
                    invariant
                        i <= tokens.len(),
                        s@ == head + token_lines_upto(views(tokens@), i as nat),
                    decreases tokens.len() - i,
                {
                    push_token_line(&mut s, &tokens[i]);
                    assert(views(tokens@)[i as int] == tokens@[i as int]@);
                    assert(s@ =~= head + token_lines_upto(views(tokens@), (i + 1) as nat));
                    i += 1;
                }
            },
            None => {
                s.append("  - Auth tokens: None\n");
            },
        }
        s.append("\n  - Probe configs:\n");
        let ghost head = s@;
        let configs = &self.probe_configs;
        let mut i: usize = 0;
        while i < configs.len()
            invariant
                i <= configs.len(),
                s@ == head + config_lines_upto(views(configs@), i as nat),
            decreases configs.len() - i,
        {
            let config = &configs[i];
            push_config_line(&mut s, config);
            assert(views(configs@)[i as int] == config@);
            assert(s@ =~= head + config_lines_upto(views(configs@), (i + 1) as nat));
            i += 1;
        }
        s.append("\n  - Server configs:\n    - max_target_timeout: ");
        crate::text::push_decimal(&mut s, self.server_configs.max_target_timeout.0 as usize);
        s.append(" seconds\n    - max_jobs_in_queue: ");
        crate::text::push_decimal(&mut s, self.server_configs.max_jobs_in_queue.0);
        s.append("\n");
        assert(s@ =~= settings_text(self@));
        s
    }
}

/// Number of characters of a token that the server makes.
pub const TOKEN_LEN: usize = 128;

/// Whether `c` is a letter or a digit of ASCII.
pub open spec fn is_alphanumeric(c: char) -> bool {
    ||| 'a' <= c <= 'z'
    ||| 'A' <= c <= 'Z'
    ||| '0' <= c <= '9'
}

/// Draws one character from the `Alphanumeric` distribution of `rand` with
/// the generator of the thread. The character is drawn at random; the
/// distribution yields letters and digits of ASCII only.
#[verifier::external_body]
fn random_alphanumeric() -> (c: char)
    ensures
        is_alphanumeric(c),
{
    char::from(rand::Rng::sample(&mut rand::thread_rng(), rand::distributions::Alphanumeric))
}

/// Makes a new token: 128 letters and digits, drawn at random.
pub fn fresh_token() -> (r: AuthToken)
    ensures
        r@.len() == TOKEN_LEN,
        forall|i: int| 0 <= i < r@.len() ==> is_alphanumeric(#[trigger] r@[i]),
{
    let mut text = String::new();
    let mut i: usize = 0;
    while i < TOKEN_LEN
        invariant
            i <= TOKEN_LEN,
            text@.len() == i,
            forall|k: int| 0 <= k < text@.len() ==> is_alphanumeric(#[trigger] text@[k]),
        decreases TOKEN_LEN - i,
    {
        crate::logs::push_char(&mut text, random_alphanumeric());
        i += 1;
    }
    AuthToken(text)
}

/// Index of the first token at or after `start` that is kept under `name`.
pub open spec fn token_index_from(tokens: Seq<AuthEntryView>, name: Seq<char>, start: int) -> Option<
    int,
>
    decreases tokens.len() - start,
{
    if start < 0 || start >= tokens.len() {
        None
    } else if tokens[start].name == name {
        Some(start)
    } else {
        token_index_from(tokens, name, start + 1)
    }
}

/// The tokens after `entry` was put among them: it takes the place of the
/// first token kept under its name, or comes last where there is none.
pub open spec fn with_token(tokens: Option<Seq<AuthEntryView>>, entry: AuthEntryView) -> Seq<
    AuthEntryView,
> {
    match tokens {
        None => seq![entry],
        Some(tokens) => match token_index_from(tokens, entry.name, 0) {
            Some(i) => tokens.update(i, entry),
            None => tokens.push(entry),
        },
    }
}

/// Where the search for a name ends: at a token kept under the name, or
/// with none left that is.
pub proof fn token_index_is_found(tokens: Seq<AuthEntryView>, name: Seq<char>, start: int)
    requires
        0 <= start,
    ensures
        match token_index_from(tokens, name, start) {
            Some(i) => start <= i < tokens.len() && tokens[i].name == name,
            None => forall|k: int| start <= k < tokens.len() ==> (#[trigger] tokens[k]).name != name,
        },
    decreases tokens.len() - start,
{
    if start < tokens.len() && tokens[start].name != name {
        token_index_is_found(tokens, name, start + 1);
    }
}

/// Tokens that are keyed by their names stay so when one more is put among
/// them.
pub proof fn with_token_keeps_names_once(tokens: Option<Seq<AuthEntryView>>, entry: AuthEntryView)
    requires
        tokens matches Some(kept) ==> names_occur_once(kept),
    ensures
        names_occur_once(with_token(tokens, entry)),
{
    match tokens {
        None => {},
        Some(kept) => {
            token_index_is_found(kept, entry.name, 0);
            let after = with_token(tokens, entry);
            assert forall|i: int, j: int| 0 <= i < j < after.len() implies after[i].name
                != after[j].name by {
                match token_index_from(kept, entry.name, 0) {
                    Some(at) => {
                        assert(after[i].name == kept[i].name);
                        assert(after[j].name == kept[j].name);
                    },
                    None => {
                        if j < kept.len() {
                            assert(after[i] == kept[i] && after[j] == kept[j]);
                        } else {
                            assert(after[i] == kept[i]);
                        }
                    },
                }
            }
        },
    }
}

/// Puts `entry` among the tokens.
fn put_token(kept: Option<Vec<AuthEntry>>, entry: AuthEntry) -> (r: Vec<AuthEntry>)
    ensures
        views(r@) == with_token(token_views(kept), entry@),
{
    let ghost model = entry@;
    let ghost given = token_views(kept);
    let mut tokens = match kept {
        Some(tokens) => tokens,
        None => {
            let mut tokens: Vec<AuthEntry> = Vec::new();
            tokens.push(entry);
            assert(views(tokens@) =~= seq![model]);
            return tokens;
        },
    };
    let ghost before = views(tokens@);
    let mut i: usize = 0;
    while i < tokens.len()
        invariant
            i <= tokens.len(),
            before == views(tokens@),
            given == Some(before),
            given == token_views(kept),
            model == entry@,
            token_index_from(before, model.name, 0) == token_index_from(
                before,
                model.name,
                i as int,
            ),
        decreases tokens.len() - i,
    {
        assert(before[i as int] == tokens@[i as int]@);
        if tokens[i].name == entry.name {
            assert(token_index_from(before, model.name, i as int) == Some(i as int));
            tokens[i] = entry;
            assert(views(tokens@) =~= before.update(i as int, model));
            return tokens;
        }
        i += 1;
    }
    proof {
        crate::model::views_of_push(tokens@, entry);
    }
    tokens.push(entry);
    tokens
}

impl SavedSettings {
    /// Takes the settings out and leaves the settings of a new server in
    /// their place.
    fn take(&mut self) -> (r: Self)
        ensures
            r == *old(self),
            r@.wf(),
    {
        proof {
            use_type_invariant(&*self);
        }
        let mut taken = SavedSettings::default();
        core::mem::swap(self, &mut taken);
        taken
    }

    /// Keeps `token` under `name`, in place of the token that was kept under
    /// that name, if one was.
    pub fn set_token(&mut self, name: AuthName, token: AuthToken)
        ensures
            final(self)@.auth_tokens == Some(
                with_token(old(self)@.auth_tokens, AuthEntryView { name: name@, token: token@ }),
            ),
            final(self)@.probe_configs == old(self)@.probe_configs,
            final(self)@.server_configs == old(self)@.server_configs,
            final(self)@.wf(),
    {
        let entry = AuthEntry { name, token };
        let SavedSettings { auth_tokens, probe_configs, server_configs } = self.take();
        proof {
            with_token_keeps_names_once(token_views(auth_tokens), entry@);
        }
        let tokens = put_token(auth_tokens, entry);
        *self = SavedSettings { auth_tokens: Some(tokens), probe_configs, server_configs };
    }
}

/// In keyed configurations the configuration of a probe is found under its
/// serial, wherever it stands among them.
pub proof fn keyed_config_is_found(configs: Seq<ProbeConfigView>, i: int)
    requires
        serials_occur_once(configs),
        0 <= i < configs.len(),
    ensures
        config_of(configs, configs[i].probe_serial) == Some(configs[i].info),
{
    config_index_is_found(configs, configs[i].probe_serial, 0);
}

/// Where the search for a serial ends: at a configuration for the serial,
/// or with none left that is.
pub proof fn config_index_is_found(configs: Seq<ProbeConfigView>, serial: Seq<char>, start: int)
    requires
        0 <= start,
    ensures
        match config_index_from(configs, serial, start) {
            Some(i) => start <= i < configs.len() && configs[i].probe_serial == serial,
            None => forall|k: int|
                start <= k < configs.len() ==> (#[trigger] configs[k]).probe_serial != serial,
        },
    decreases configs.len() - start,
{
    if start < configs.len() && configs[start].probe_serial != serial {
        config_index_is_found(configs, serial, start + 1);
    }
}

} // verus!
