//! Targets and the inventory that resolves selectors to them.

use crate::ident::{ProbeAlias, ProbeSerial, TargetGroup, TargetName};
use crate::model::views;
use crate::unord::{holds, unordered_eq, UnordEqVec};
use vstd::prelude::*;
use vstd::std_specs::cmp::PartialEqSpecImpl;
use vstd::std_specs::convert::FromSpecImpl;
use vstd::string::StringExecFns;

verus! {

/// Mathematical model of a [`Target`]: every identifier as its characters.
pub struct TargetView {
    pub probe_serial: Seq<char>,
    pub probe_alias: Seq<char>,
    pub target_name: Seq<char>,
    pub groups: Seq<Seq<char>>,
}

/// An embedded target: a microcontroller reachable through one debug probe.
#[derive(Debug, Eq)]
pub struct Target {
    /// Serial of the probe to which the target is connected.
    pub probe_serial: ProbeSerial,
    /// Alias of that probe.
    pub probe_alias: ProbeAlias,
    /// Chip name of the target.
    pub target_name: TargetName,
    /// Groups to which the target belongs.
    pub groups: UnordEqVec<TargetGroup>,
}

impl View for Target {
    type V = TargetView;

    open spec fn view(&self) -> TargetView {
        TargetView {
            probe_serial: self.probe_serial@,
            probe_alias: self.probe_alias@,
            target_name: self.target_name@,
            groups: views(self.groups@),
        }
    }
}

/// A copy of a list of groups, element by element.
pub fn clone_groups(groups: &UnordEqVec<TargetGroup>) -> (r: UnordEqVec<TargetGroup>)
    ensures
        views(r@) == views(groups@),
{
    let mut out: Vec<TargetGroup> = Vec::new();
    let mut i: usize = 0;
    while i < groups.0.len()
        invariant
            i <= groups.0.len(),
            out@.len() == i,
            forall|k: int| 0 <= k < i ==> (#[trigger] out@[k])@ == groups.0@[k]@,
        decreases groups.0.len() - i,
    {
        out.push(groups.0[i].clone());
        i += 1;
    }
    assert(views(out@) =~= views(groups@));
    UnordEqVec(out)
}

impl Clone for Target {
    fn clone(&self) -> (r: Self)
        ensures
            r@ == self@,
    {
        Target {
            probe_serial: self.probe_serial.clone(),
            probe_alias: self.probe_alias.clone(),
            target_name: self.target_name.clone(),
            groups: clone_groups(&self.groups),
        }
    }
}

impl PartialEqSpecImpl for Target {
    open spec fn obeys_eq_spec() -> bool {
        true
    }

    open spec fn eq_spec(&self, other: &Self) -> bool {
        &&& self.probe_serial@ == other.probe_serial@
        &&& self.probe_alias@ == other.probe_alias@
        &&& self.target_name@ == other.target_name@
        &&& unordered_eq(self.groups@, other.groups@)
    }
}

impl PartialEq for Target {
    fn eq(&self, other: &Self) -> (r: bool) {
        self.probe_serial == other.probe_serial && self.probe_alias == other.probe_alias
            && self.target_name == other.target_name && self.groups == other.groups
    }
}

impl Target {
    /// Whether the target belongs to `group`.
    pub fn in_group(&self, group: &TargetGroup) -> (r: bool)
        ensures
            r == self@.groups.contains(group@),
    {
        let r = self.groups.contains(group);
        proof {
            let gs = self.groups@;
            if holds(gs, *group) {
                let j = choose|j: int| 0 <= j < gs.len() && (#[trigger] gs[j])@ == group@;
                assert(views(gs)[j] == group@);
            }
            if self@.groups.contains(group@) {
                let j = choose|j: int| 0 <= j < views(gs).len() && views(gs)[j] == group@;
                assert(gs[j]@ == group@);
            }
        }
        r
    }
}

/// A copy of a list of targets, element by element.
pub fn clone_targets(targets: &Vec<Target>) -> (r: Vec<Target>)
    ensures
        views(r@) == views(targets@),
{
    let mut out: Vec<Target> = Vec::new();
    let mut i: usize = 0;
    while i < targets.len()
        invariant
            i <= targets.len(),
            out@.len() == i,
            forall|k: int| 0 <= k < i ==> (#[trigger] out@[k])@ == targets@[k]@,
        decreases targets.len() - i,
    {
        out.push(targets[i].clone());
        i += 1;
    }
    assert(views(out@) =~= views(targets@));
    out
}

/// The model of a target that a search handed out, if it handed one out.
pub open spec fn found_view(found: Option<&Target>) -> Option<TargetView> {
    match found {
        Some(t) => Some(t@),
        None => None,
    }
}

/// The models of the targets that a list of references points to.
pub open spec fn ref_views(found: Seq<&Target>) -> Seq<TargetView> {
    Seq::new(found.len(), |j: int| found[j]@)
}

/// Index of the first target at or after `start` that satisfies `pred`.
pub open spec fn first_from(
    targets: Seq<TargetView>,
    pred: spec_fn(TargetView) -> bool,
    start: int,
) -> Option<int>
    decreases targets.len() - start,
{
    if start < 0 || start >= targets.len() {
        None
    } else if pred(targets[start]) {
        Some(start)
    } else {
        first_from(targets, pred, start + 1)
    }
}

/// The first target that satisfies `pred`, if any does.
pub open spec fn first_match(targets: Seq<TargetView>, pred: spec_fn(TargetView) -> bool) -> Option<
    TargetView,
> {
    match first_from(targets, pred, 0) {
        Some(i) => Some(targets[i]),
        None => None,
    }
}

/// The test "has probe serial `serial`".
pub open spec fn serial_is(serial: Seq<char>) -> spec_fn(TargetView) -> bool {
    |t: TargetView| t.probe_serial == serial
}

/// The test "has chip name `name`".
pub open spec fn name_is(name: Seq<char>) -> spec_fn(TargetView) -> bool {
    |t: TargetView| t.target_name == name
}

/// The test "has probe alias `alias`".
pub open spec fn alias_is(alias: Seq<char>) -> spec_fn(TargetView) -> bool {
    |t: TargetView| t.probe_alias == alias
}

/// The test "belongs to `group`".
pub open spec fn group_has(group: Seq<char>) -> spec_fn(TargetView) -> bool {
    |t: TargetView| t.groups.contains(group)
}

/// The target with probe serial `serial` that comes first, if any.
pub open spec fn by_probe_serial(targets: Seq<TargetView>, serial: Seq<char>) -> Option<TargetView> {
    first_match(targets, serial_is(serial))
}

/// The target with name `name` that comes first, if any.
pub open spec fn by_target_name(targets: Seq<TargetView>, name: Seq<char>) -> Option<TargetView> {
    first_match(targets, name_is(name))
}

/// The target with probe alias `alias` that comes first, if any.
pub open spec fn by_probe_alias(targets: Seq<TargetView>, alias: Seq<char>) -> Option<TargetView> {
    first_match(targets, alias_is(alias))
}

/// The targets that belong to `group`, in inventory order.
pub open spec fn by_group(targets: Seq<TargetView>, group: Seq<char>) -> Seq<TargetView> {
    targets.filter(group_has(group))
}

/// No two targets of the list share a probe serial.
pub open spec fn unique_serials(targets: Seq<TargetView>) -> bool {
    forall|i: int, j: int|
        0 <= i < j < targets.len() ==> (#[trigger] targets[i]).probe_serial != (
        #[trigger] targets[j]).probe_serial
}

/// Some target of the list has probe serial `serial`.
pub open spec fn has_serial(targets: Seq<TargetView>, serial: Seq<char>) -> bool {
    exists|i: int| 0 <= i < targets.len() && (#[trigger] targets[i]).probe_serial == serial
}

/// What `first_from` returns is the least index at or after `start` whose
/// target satisfies the predicate.
pub proof fn first_from_is_least(
    targets: Seq<TargetView>,
    pred: spec_fn(TargetView) -> bool,
    start: int,
)
    requires
        0 <= start,
    ensures
        match first_from(targets, pred, start) {
            Some(i) => start <= i < targets.len() && pred(targets[i]) && forall|k: int|
                start <= k < i ==> !pred(#[trigger] targets[k]),
            None => forall|k: int| start <= k < targets.len() ==> !pred(#[trigger] targets[k]),
        },
    decreases targets.len() - start,
{
    if start < targets.len() && !pred(targets[start]) {
        first_from_is_least(targets, pred, start + 1);
    }
}

/// Refusal of a target whose probe serial the inventory already holds.
#[derive(Debug)]
pub struct DuplicateSerial {
    /// The serial that was offered a second time.
    pub probe_serial: ProbeSerial,
}

impl DuplicateSerial {
    /// The refusal in words.
    pub fn message(&self) -> (r: String)
        ensures
            r@ == "probe serial '"@ + self.probe_serial@ + "' already pushed"@,
    {
        let mut s = String::from_str("probe serial '");
        s.append(self.probe_serial.as_str());
        s.append("' already pushed");
        s
    }
}

/// The inventory: the targets that a server found at startup.
#[derive(Debug)]
pub struct Targets {
    targets: Vec<Target>,
}

impl View for Targets {
    type V = Seq<TargetView>;

    closed spec fn view(&self) -> Seq<TargetView> {
        views(self.targets@)
    }
}

impl Clone for Targets {
    fn clone(&self) -> (r: Self)
        ensures
            r@ == self@,
    {
        Targets { targets: clone_targets(&self.targets) }
    }
}

impl FromSpecImpl<Vec<Target>> for Targets {
    open spec fn obeys_from_spec() -> bool {
        true
    }

    closed spec fn from_spec(targets: Vec<Target>) -> Self {
        Targets { targets }
    }
}

impl From<Vec<Target>> for Targets {
    fn from(targets: Vec<Target>) -> (r: Self) {
        Targets { targets }
    }
}

impl Targets {
    /// An inventory made of `targets`, in their order, has their models as its
    /// view.
    pub proof fn view_of_from(targets: Vec<Target>)
        ensures
            <Targets as vstd::std_specs::convert::FromSpec<Vec<Target>>>::from_spec(targets)@
                == views(targets@),
    {
    }

    /// An empty inventory.
    pub fn new() -> (r: Self)
        ensures
            r@ == Seq::<TargetView>::empty(),
            unique_serials(r@),
    {
        let r = Targets { targets: Vec::new() };
        assert(r@ =~= Seq::<TargetView>::empty());
        r
    }

    /// Adds `target` unless a target with the same probe serial is already
    /// held; then the inventory stays as it was.
    pub fn push(&mut self, target: Target) -> (r: Result<(), DuplicateSerial>)
        ensures
            match r {
                Ok(()) => !has_serial(old(self)@, target@.probe_serial) && final(self)@ == old(
                    self,
                )@.push(target@),
                Err(e) => has_serial(old(self)@, target@.probe_serial) && final(self)@ == old(
                    self,
                )@ && e.probe_serial@ == target@.probe_serial,
            },
            unique_serials(old(self)@) ==> unique_serials(final(self)@),
    {
        let mut i: usize = 0;
        while i < self.targets.len()
            invariant
                i <= self.targets.len(),
                *self == *old(self),
                forall|k: int|
                    0 <= k < i ==> (#[trigger] self@[k]).probe_serial != target@.probe_serial,
            decreases self.targets.len() - i,
        {
            if self.targets[i].probe_serial == target.probe_serial {
                assert(self@[i as int].probe_serial == target@.probe_serial);
                return Err(DuplicateSerial { probe_serial: target.probe_serial });
            }
            i += 1;
        }
        let ghost before = self.targets@;
        self.targets.push(target);
        assert(views(self.targets@) =~= views(before).push(target@));
        Ok(())
    }

    /// The first target whose probe serial is `probe_serial`, if any.
    pub fn find_by_probe_serial(&self, probe_serial: &ProbeSerial) -> (r: Option<&Target>)
        ensures
            found_view(r) == by_probe_serial(self@, probe_serial@),
    {
        let mut i: usize = 0;
        while i < self.targets.len()
            invariant
                i <= self.targets.len(),
                first_from(self@, serial_is(probe_serial@), 0) == first_from(self@, serial_is(probe_serial@), i as int),
            decreases self.targets.len() - i,
        {
            assert(self@[i as int] == self.targets@[i as int]@);
            if self.targets[i].probe_serial == *probe_serial {
                assert(serial_is(probe_serial@)(self@[i as int]));
                return Some(&self.targets[i]);
            }
            assert(!serial_is(probe_serial@)(self@[i as int]));
            i += 1;
        }
        None
    }

    /// The first target whose chip name is `target_name`, if any.
    pub fn find_by_target_name(&self, target_name: &TargetName) -> (r: Option<&Target>)
        ensures
            found_view(r) == by_target_name(self@, target_name@),
    {
        let mut i: usize = 0;
        while i < self.targets.len()
            invariant
                i <= self.targets.len(),
                first_from(self@, name_is(target_name@), 0) == first_from(self@, name_is(target_name@), i as int),
            decreases self.targets.len() - i,
        {
            assert(self@[i as int] == self.targets@[i as int]@);
            if self.targets[i].target_name == *target_name {
                assert(name_is(target_name@)(self@[i as int]));
                return Some(&self.targets[i]);
            }
            assert(!name_is(target_name@)(self@[i as int]));
            i += 1;
        }
        None
    }

    /// The first target whose probe alias is `probe_alias`, if any.
    pub fn find_by_probe_alias(&self, probe_alias: &ProbeAlias) -> (r: Option<&Target>)
        ensures
            found_view(r) == by_probe_alias(self@, probe_alias@),
    {
        let mut i: usize = 0;
        while i < self.targets.len()
            invariant
                i <= self.targets.len(),
                first_from(self@, alias_is(probe_alias@), 0) == first_from(self@, alias_is(probe_alias@), i as int),
            decreases self.targets.len() - i,
        {
            assert(self@[i as int] == self.targets@[i as int]@);
            if self.targets[i].probe_alias == *probe_alias {
                assert(alias_is(probe_alias@)(self@[i as int]));
                return Some(&self.targets[i]);
            }
            assert(!alias_is(probe_alias@)(self@[i as int]));
            i += 1;
        }
        None
    }

    /// Every target that belongs to `group`, in inventory order.
    pub fn find_by_group(&self, group: &TargetGroup) -> (r: Vec<&Target>)
        ensures
            ref_views(r@) == by_group(self@, group@),
    {
        let mut out: Vec<&Target> = Vec::new();
        let mut i: usize = 0;
        assert(self@.take(0) =~= Seq::<TargetView>::empty());
        while i < self.targets.len()
            invariant
                i <= self.targets.len(),
                self@.len() == self.targets.len(),
                out@.len() == self@.take(i as int).filter(group_has(group@)).len(),
                forall|k: int|
                    0 <= k < out@.len() ==> (#[trigger] out@[k])@ == self@.take(i as int).filter(
                        group_has(group@),
                    )[k],
            decreases self.targets.len() - i,
        {
            let t = &self.targets[i];
            let member = t.in_group(group);
            proof {
                let next = self@.take(i as int + 1);
                assert(next.drop_last() =~= self@.take(i as int));
                assert(next.last() == t@);
                assert(group_has(group@)(t@) == member);
                reveal(Seq::filter);
            }
            if member {
                out.push(t);
            }
            i += 1;
        }
        assert(self@.take(i as int) =~= self@);
        assert(ref_views(out@) =~= by_group(self@, group@));
        out
    }

    /// All targets, in inventory order.
    pub fn all_targets(&self) -> (r: &[Target])
        ensures
            views(r@) == self@,
    {
        self.targets.as_slice()
    }

    /// Number of targets held.
    pub fn len(&self) -> (r: usize)
        ensures
            r == self@.len(),
    {
        self.targets.len()
    }
}

} // verus!
