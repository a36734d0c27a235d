//! Selectors: the ways in which a task names the targets it runs on.

use crate::ident::{ProbeAlias, ProbeSerial, TargetGroup, TargetName};
use crate::model::views;
use vstd::prelude::*;

verus! {

/// What the identifiers of a selector are matched against.
#[derive(Debug, Clone, Copy, PartialEq, Eq, Structural)]
pub enum SelectorKind {
    /// Probe serials.
    ProbeSerials,
    /// Probe aliases.
    ProbeAliases,
    /// Chip names.
    Targets,
    /// Group labels; one label may stand for many targets.
    Groups,
}

/// Mathematical model of a [`RunOn`]: its kind and the characters of its
/// identifiers, in order.
pub struct RunOnView {
    pub kind: SelectorKind,
    pub ids: Seq<Seq<char>>,
}

/// On which targets a task should run.
#[derive(Debug, Clone)]
pub enum RunOn {
    /// Run on the probes with the given serial numbers.
    ProbeSerials(Vec<ProbeSerial>),
    /// Run on the probes with the given aliases.
    ProbeAliases(Vec<ProbeAlias>),
    /// Run on the targets with the given chip names.
    Targets(Vec<TargetName>),
    /// Run on every target of the given groups.
    Groups(Vec<TargetGroup>),
}

impl View for RunOn {
    type V = RunOnView;

    open spec fn view(&self) -> RunOnView {
        match self {
            RunOn::ProbeSerials(v) => RunOnView {
                kind: SelectorKind::ProbeSerials,
                ids: views(v@),
            },
            RunOn::ProbeAliases(v) => RunOnView {
                kind: SelectorKind::ProbeAliases,
                ids: views(v@),
            },
            RunOn::Targets(v) => RunOnView { kind: SelectorKind::Targets, ids: views(v@) },
            RunOn::Groups(v) => RunOnView { kind: SelectorKind::Groups, ids: views(v@) },
        }
    }
}

/// The name under which a selector of `kind` stands in a job description.
pub open spec fn variant_name(kind: SelectorKind) -> Seq<char> {
    match kind {
        SelectorKind::ProbeSerials => "probe_serials"@,
        SelectorKind::ProbeAliases => "probe_aliases"@,
        SelectorKind::Targets => "targets"@,
        SelectorKind::Groups => "groups"@,
    }
}

impl RunOn {
    /// The kind of the selector.
    pub fn kind(&self) -> (r: SelectorKind)
        ensures
            r == self@.kind,
    {
        match self {
            RunOn::ProbeSerials(_) => SelectorKind::ProbeSerials,
            RunOn::ProbeAliases(_) => SelectorKind::ProbeAliases,
            RunOn::Targets(_) => SelectorKind::Targets,
            RunOn::Groups(_) => SelectorKind::Groups,
        }
    }

    /// Number of identifiers that the selector lists.
    pub fn len(&self) -> (r: usize)
        ensures
            r == self@.ids.len(),
    {
        match self {
            RunOn::ProbeSerials(v) => v.len(),
            RunOn::ProbeAliases(v) => v.len(),
            RunOn::Targets(v) => v.len(),
            RunOn::Groups(v) => v.len(),
        }
    }
}

impl SelectorKind {
    /// The name under which a selector of this kind stands in a job
    /// description.
    pub fn name(&self) -> (r: &'static str)
        ensures
            r@ == variant_name(*self),
    {
        match self {
            SelectorKind::ProbeSerials => "probe_serials",
            SelectorKind::ProbeAliases => "probe_aliases",
            SelectorKind::Targets => "targets",
            SelectorKind::Groups => "groups",
        }
    }
}

} // verus!
