//! Validation of a job description against the inventory.
//!
//! Every identifier of every selector is resolved; every problem found is
//! collected, so that a client learns of all of them at once.

use crate::encoding::{base64_decoding, decode_base64, decoding_view};
use crate::ident::{fresh_uuid, is_version_four};
use crate::job::{Job, JobDesc, Task, TaskDesc, TaskDescView};
use crate::model::{views, views_of_push};
use crate::selector::{variant_name, RunOn, RunOnView, SelectorKind};
use crate::target::{
    by_group, by_probe_alias, by_probe_serial, by_target_name, found_view, ref_views, Target,
    TargetView, Targets,
};
use crate::text::{
    binary_path, entry_path, make_binary_path, make_entry_path, make_run_on_path, run_on_path,
};
use crate::unord::UnordEqVec;
use vstd::prelude::*;
use vstd::string::StringExecFns;

verus! {

/// Mathematical model of a [`ValidationError`].
pub enum ValidationErrorView {
    TargetNotAvailable { entry: Seq<char> },
    TargetIsNotUnique { target: TargetView, entries: Seq<Seq<char>> },
    Base64DecodingFailed { entry: Seq<char>, error_details: Seq<char> },
    NoTargetChosen { entry: Seq<char> },
}

/// One problem found in a job description.
#[derive(Debug, PartialEq, Eq)]
pub enum ValidationError {
    /// The inventory holds no target for the entry.
    TargetNotAvailable {
        /// Where the entry stands in the job description.
        entry: String,
    },
    /// Several entries resolve to the same target.
    TargetIsNotUnique {
        /// The target.
        target: Target,
        /// Where the entries stand in the job description.
        entries: UnordEqVec<String>,
    },
    /// The binary of a task is no base64 text.
    Base64DecodingFailed {
        /// Where the binary stands in the job description.
        entry: String,
        /// What the decoder objected to.
        error_details: String,
    },
    /// A task names no target.
    NoTargetChosen {
        /// Where the selectors of the task stand in the job description.
        entry: String,
    },
}

impl View for ValidationError {
    type V = ValidationErrorView;

    open spec fn view(&self) -> ValidationErrorView {
        match self {
            ValidationError::TargetNotAvailable { entry } => ValidationErrorView::TargetNotAvailable {
                entry: entry@,
            },
            ValidationError::TargetIsNotUnique {
                target,
                entries,
            } => ValidationErrorView::TargetIsNotUnique {
                target: target@,
                entries: views(entries@),
            },
            ValidationError::Base64DecodingFailed {
                entry,
                error_details,
            } => ValidationErrorView::Base64DecodingFailed {
                entry: entry@,
                error_details: error_details@,
            },
            ValidationError::NoTargetChosen { entry } => ValidationErrorView::NoTargetChosen {
                entry: entry@,
            },
        }
    }
}

/// All the problems found in a job description. Two collections are equal
/// when they hold the same problems, whatever their order.
#[derive(Debug, PartialEq, Eq, Default)]
pub struct ValidationErrors {
    errors: UnordEqVec<ValidationError>,
}

impl View for ValidationErrors {
    type V = Seq<ValidationErrorView>;

    closed spec fn view(&self) -> Seq<ValidationErrorView> {
        views(self.errors@)
    }
}

impl ValidationErrors {
    /// The collection of `errors`.
    pub fn new(errors: Vec<ValidationError>) -> (r: Self)
        ensures
            r@ == views(errors@),
    {
        ValidationErrors { errors: UnordEqVec(errors) }
    }

    /// The problems, in the order in which they were found.
    pub fn errors(&self) -> (r: &Vec<ValidationError>)
        ensures
            views(r@) == self@,
    {
        self.errors.as_vec()
    }

    /// Number of problems held.
    pub fn len(&self) -> (r: usize)
        ensures
            r == self@.len(),
    {
        self.errors.len()
    }

    /// Whether no problem is held.
    pub fn is_empty(&self) -> (r: bool)
        ensures
            r == (self@.len() == 0),
    {
        self.errors.len() == 0
    }
}

/// One attempt to resolve an identifier: where the identifier stands, and the
/// target found for it, if any.
pub struct EntryView {
    pub path: Seq<char>,
    pub target: Option<TargetView>,
}

/// One attempt to resolve an identifier, as it is kept during validation.
#[derive(Debug)]
pub struct Entry {
    /// Where the identifier stands in the job description.
    pub path: String,
    /// The target found for it, if any.
    pub target: Option<Target>,
}

impl View for Entry {
    type V = EntryView;

    open spec fn view(&self) -> EntryView {
        EntryView {
            path: self.path@,
            target: match self.target {
                Some(t) => Some(t@),
                None => None,
            },
        }
    }
}

/// The attempts that a group label gives rise to: one for each target found,
/// or a single failed one.
pub open spec fn group_entries(path: Seq<char>, found: Seq<TargetView>) -> Seq<EntryView> {
    if found.len() == 0 {
        seq![EntryView { path, target: None }]
    } else {
        Seq::new(found.len(), |j: int| EntryView { path, target: Some(found[j]) })
    }
}

/// The attempts that identifier `id` of a selector of `kind` gives rise to.
pub open spec fn ident_entries(
    kind: SelectorKind,
    id: Seq<char>,
    path: Seq<char>,
    inventory: Seq<TargetView>,
) -> Seq<EntryView> {
    match kind {
        SelectorKind::ProbeSerials => seq![
            EntryView { path, target: by_probe_serial(inventory, id) },
        ],
        SelectorKind::ProbeAliases => seq![
            EntryView { path, target: by_probe_alias(inventory, id) },
        ],
        SelectorKind::Targets => seq![EntryView { path, target: by_target_name(inventory, id) }],
        SelectorKind::Groups => group_entries(path, by_group(inventory, id)),
    }
}

/// The attempts of the first `n` identifiers of selector `r` of task `t`.
pub open spec fn selector_entries_upto(
    selector: RunOnView,
    t: nat,
    r: nat,
    inventory: Seq<TargetView>,
    n: nat,
) -> Seq<EntryView>
    decreases n,
{
    if n == 0 {
        Seq::empty()
    } else {
        let k = (n - 1) as nat;
        selector_entries_upto(selector, t, r, inventory, k) + ident_entries(
            selector.kind,
            selector.ids[k as int],
            entry_path(selector.ids[k as int], t, r, variant_name(selector.kind), k),
            inventory,
        )
    }
}

/// The attempts of selector `r` of task `t`.
pub open spec fn selector_entries(
    selector: RunOnView,
    t: nat,
    r: nat,
    inventory: Seq<TargetView>,
) -> Seq<EntryView> {
    selector_entries_upto(selector, t, r, inventory, selector.ids.len())
}

/// The attempts of the first `n` selectors of task `t`.
pub open spec fn task_entries_upto(
    task: TaskDescView,
    t: nat,
    inventory: Seq<TargetView>,
    n: nat,
) -> Seq<EntryView>
    decreases n,
{
    if n == 0 {
        Seq::empty()
    } else {
        let r = (n - 1) as nat;
        task_entries_upto(task, t, inventory, r) + selector_entries(
            task.run_on[r as int],
            t,
            r,
            inventory,
        )
    }
}

/// The attempts of task `t`, in the order of its selectors and identifiers.
pub open spec fn task_entries(task: TaskDescView, t: nat, inventory: Seq<TargetView>) -> Seq<
    EntryView,
> {
    task_entries_upto(task, t, inventory, task.run_on.len())
}

/// The targets that a list of attempts found, in order.
pub open spec fn resolved(entries: Seq<EntryView>) -> Seq<TargetView>
    decreases entries.len(),
{
    if entries.len() == 0 {
        Seq::empty()
    } else {
        let head = resolved(entries.drop_last());
        match entries.last().target {
            Some(t) => head.push(t),
            None => head,
        }
    }
}

/// A single attempt found its target, or nothing.
pub proof fn resolved_of_one(e: EntryView)
    ensures
        resolved(seq![e]) == match e.target {
            Some(t) => seq![t],
            None => Seq::<TargetView>::empty(),
        },
{
    let one = seq![e];
    assert(one.drop_last() =~= Seq::<EntryView>::empty());
    assert(resolved(Seq::<EntryView>::empty()) =~= Seq::<TargetView>::empty());
    assert(one.last() == e);
    match e.target {
        Some(t) => {
            assert(resolved(one) =~= seq![t]);
        },
        None => {
            assert(resolved(one) =~= Seq::<TargetView>::empty());
        },
    }
}

/// The targets found for a list of attempts that is put together from two
/// are those of the first followed by those of the second.
pub proof fn resolved_of_concat(a: Seq<EntryView>, b: Seq<EntryView>)
    ensures
        resolved(a + b) == resolved(a) + resolved(b),
    decreases b.len(),
{
    if b.len() == 0 {
        assert(a + b =~= a);
        assert(resolved(a) + resolved(b) =~= resolved(a));
    } else {
        assert((a + b).drop_last() =~= a + b.drop_last());
        assert((a + b).last() == b.last());
        resolved_of_concat(a, b.drop_last());
        match b.last().target {
            Some(t) => {
                assert((resolved(a) + resolved(b.drop_last())).push(t) =~= resolved(a) + resolved(
                    b.drop_last(),
                ).push(t));
            },
            None => {},
        }
    }
}

/// The targets found for the attempts of a group label are the targets of
/// the group.
pub proof fn resolved_of_group(path: Seq<char>, found: Seq<TargetView>)
    ensures
        resolved(group_entries(path, found)) == found,
    decreases found.len(),
{
    if found.len() == 0 {
        resolved_of_one(EntryView { path, target: None });
        assert(resolved(group_entries(path, found)) =~= found);
    } else {
        let e = group_entries(path, found);
        let shorter = found.drop_last();
        if shorter.len() == 0 {
            resolved_of_one(EntryView { path, target: Some(found[0]) });
            assert(e =~= seq![EntryView { path, target: Some(found[0]) }]);
            assert(resolved(e) =~= found);
        } else {
            assert(e.drop_last() =~= group_entries(path, shorter));
            resolved_of_group(path, shorter);
            assert(resolved(e) =~= found);
        }
    }
}

/// Records the attempt for an identifier that stands for at most one target.
fn record_found(
    found: Option<&Target>,
    path: String,
    entries: &mut Vec<Entry>,
    targets: &mut Vec<Target>,
)
    ensures
        views(final(entries)@) == views(old(entries)@) + seq![
            EntryView { path: path@, target: found_view(found) },
        ],
        views(final(targets)@) == views(old(targets)@) + resolved(
            seq![EntryView { path: path@, target: found_view(found) }],
        ),
{
    let ghost e = EntryView { path: path@, target: found_view(found) };
    proof {
        resolved_of_one(e);
    }
    match found {
        Some(t) => {
            let copy = t.clone();
            proof {
                views_of_push(targets@, copy);
                assert(resolved(seq![e]) =~= seq![t@]);
                assert(views(targets@).push(copy@) =~= views(targets@) + seq![t@]);
            }
            targets.push(copy);
            let entry = Entry { path, target: Some(t.clone()) };
            proof {
                views_of_push(entries@, entry);
                assert(views(entries@).push(entry@) =~= views(entries@) + seq![e]);
            }
            entries.push(entry);
        },
        None => {
            let entry = Entry { path, target: None };
            proof {
                views_of_push(entries@, entry);
                assert(views(entries@).push(entry@) =~= views(entries@) + seq![e]);
                assert(resolved(seq![e]) =~= Seq::<TargetView>::empty());
                assert(views(targets@) + Seq::<TargetView>::empty() =~= views(targets@));
            }
            entries.push(entry);
        },
    }
}

/// Records the attempts for a group label, given the targets of the group.
fn record_group(
    found: Vec<&Target>,
    path: String,
    entries: &mut Vec<Entry>,
    targets: &mut Vec<Target>,
)
    ensures
        views(final(entries)@) == views(old(entries)@) + group_entries(path@, ref_views(found@)),
        views(final(targets)@) == views(old(targets)@) + resolved(
            group_entries(path@, ref_views(found@)),
        ),
{
    let ghost fv = ref_views(found@);
    proof {
        resolved_of_group(path@, fv);
    }
    if found.len() == 0 {
        let entry = Entry { path, target: None };
        proof {
            views_of_push(entries@, entry);
            assert(views(entries@).push(entry@) =~= views(entries@) + group_entries(path@, fv));
            assert(views(targets@) + fv =~= views(targets@));
        }
        entries.push(entry);
    } else {
        let mut j: usize = 0;
        while j < found.len()
            invariant
                j <= found.len(),
                fv == ref_views(found@),
                found.len() > 0,
                views(entries@) == views(old(entries)@) + Seq::new(
                    j as nat,
                    |i: int| EntryView { path: path@, target: Some(fv[i]) },
                ),
                views(targets@) == views(old(targets)@) + fv.take(j as int),
            decreases found.len() - j,
        {
            let t = found[j];
            let copy = t.clone();
            let entry = Entry { path: path.clone(), target: Some(t.clone()) };
            proof {
                views_of_push(targets@, copy);
                views_of_push(entries@, entry);
                assert(fv[j as int] == t@);
                assert((views(old(entries)@) + Seq::new(
                    j as nat,
                    |i: int| EntryView { path: path@, target: Some(fv[i]) },
                )).push(entry@) =~= views(old(entries)@) + Seq::new(
                    (j + 1) as nat,
                    |i: int| EntryView { path: path@, target: Some(fv[i]) },
                ));
                assert((views(old(targets)@) + fv.take(j as int)).push(copy@) =~= views(
                    old(targets)@,
                ) + fv.take(j as int + 1));
            }
            targets.push(copy);
            entries.push(entry);
            j += 1;
        }
        proof {
            assert(fv.take(j as int) =~= fv);
            assert(Seq::new(j as nat, |i: int| EntryView { path: path@, target: Some(fv[i]) })
                =~= group_entries(path@, fv));
        }
    }
}


/// Resolves every identifier of selector `r` of task `t`, in order, and
/// records the attempts and the targets found.
fn resolve_selector(
    run_on: &RunOn,
    t: usize,
    r: usize,
    inventory: &Targets,
    entries: &mut Vec<Entry>,
    targets: &mut Vec<Target>,
)
    ensures
        views(final(entries)@) == views(old(entries)@) + selector_entries(
            run_on@,
            t as nat,
            r as nat,
            inventory@,
        ),
        views(final(targets)@) == views(old(targets)@) + resolved(
            selector_entries(run_on@, t as nat, r as nat, inventory@),
        ),
{
    let ghost e0 = views(entries@);
    let ghost t0 = views(targets@);
    let ghost sel = run_on@;
    proof {
        assert(e0 + Seq::<EntryView>::empty() =~= e0);
        assert(t0 + Seq::<TargetView>::empty() =~= t0);
        assert(resolved(Seq::<EntryView>::empty()) =~= Seq::<TargetView>::empty());
    }
    match run_on {
        RunOn::ProbeSerials(ids) => {
            let kind = SelectorKind::ProbeSerials;
            let mut k: usize = 0;
            while k < ids.len()
                invariant
                    k <= ids.len(),
                    kind == SelectorKind::ProbeSerials,
                    sel == (RunOnView { kind: SelectorKind::ProbeSerials, ids: views(ids@) }),
                    views(entries@) == e0 + selector_entries_upto(sel, t as nat, r as nat, inventory@, k as nat),
                    views(targets@) == t0 + resolved(
                        selector_entries_upto(sel, t as nat, r as nat, inventory@, k as nat),
                    ),
                decreases ids.len() - k,
            {
                let ghost before = selector_entries_upto(sel, t as nat, r as nat, inventory@, k as nat);
                let ghost fresh = ident_entries(
                    sel.kind,
                    sel.ids[k as int],
                    entry_path(sel.ids[k as int], t as nat, r as nat, variant_name(sel.kind), k as nat),
                    inventory@,
                );
                {
                    let found = inventory.find_by_probe_serial(&ids[k]);
                    let path = make_entry_path(ids[k].as_str(), t, r, kind.name(), k);
                    record_found(found, path, entries, targets);
                }
                proof {
                    assert(sel.ids[k as int] == ids@[k as int]@);
                    assert(selector_entries_upto(sel, t as nat, r as nat, inventory@, (k + 1) as nat)
                        == before + fresh);
                    resolved_of_concat(before, fresh);
                    assert(views(entries@) =~= e0 + (before + fresh));
                    assert(views(targets@) =~= t0 + (resolved(before) + resolved(fresh)));
                }
                k += 1;
            }
        },
        RunOn::ProbeAliases(ids) => {
            let kind = SelectorKind::ProbeAliases;
            let mut k: usize = 0;
            while k < ids.len()
                invariant
                    k <= ids.len(),
                    kind == SelectorKind::ProbeAliases,
                    sel == (RunOnView { kind: SelectorKind::ProbeAliases, ids: views(ids@) }),
                    views(entries@) == e0 + selector_entries_upto(sel, t as nat, r as nat, inventory@, k as nat),
                    views(targets@) == t0 + resolved(
                        selector_entries_upto(sel, t as nat, r as nat, inventory@, k as nat),
                    ),
                decreases ids.len() - k,
            {
                let ghost before = selector_entries_upto(sel, t as nat, r as nat, inventory@, k as nat);
                let ghost fresh = ident_entries(
                    sel.kind,
                    sel.ids[k as int],
                    entry_path(sel.ids[k as int], t as nat, r as nat, variant_name(sel.kind), k as nat),
                    inventory@,
                );
                {
                    let found = inventory.find_by_probe_alias(&ids[k]);
                    let path = make_entry_path(ids[k].as_str(), t, r, kind.name(), k);
                    record_found(found, path, entries, targets);
                }
                proof {
                    assert(sel.ids[k as int] == ids@[k as int]@);
                    assert(selector_entries_upto(sel, t as nat, r as nat, inventory@, (k + 1) as nat)
                        == before + fresh);
                    resolved_of_concat(before, fresh);
                    assert(views(entries@) =~= e0 + (before + fresh));
                    assert(views(targets@) =~= t0 + (resolved(before) + resolved(fresh)));
                }
                k += 1;
            }
        },
        RunOn::Targets(ids) => {
            let kind = SelectorKind::Targets;
            let mut k: usize = 0;
            while k < ids.len()
                invariant
                    k <= ids.len(),
                    kind == SelectorKind::Targets,
                    sel == (RunOnView { kind: SelectorKind::Targets, ids: views(ids@) }),
                    views(entries@) == e0 + selector_entries_upto(sel, t as nat, r as nat, inventory@, k as nat),
                    views(targets@) == t0 + resolved(
                        selector_entries_upto(sel, t as nat, r as nat, inventory@, k as nat),
                    ),
                decreases ids.len() - k,
            {
                let ghost before = selector_entries_upto(sel, t as nat, r as nat, inventory@, k as nat);
                let ghost fresh = ident_entries(
                    sel.kind,
                    sel.ids[k as int],
                    entry_path(sel.ids[k as int], t as nat, r as nat, variant_name(sel.kind), k as nat),
                    inventory@,
                );
                {
                    let found = inventory.find_by_target_name(&ids[k]);
                    let path = make_entry_path(ids[k].as_str(), t, r, kind.name(), k);
                    record_found(found, path, entries, targets);
                }
                proof {
                    assert(sel.ids[k as int] == ids@[k as int]@);
                    assert(selector_entries_upto(sel, t as nat, r as nat, inventory@, (k + 1) as nat)
                        == before + fresh);
                    resolved_of_concat(before, fresh);
                    assert(views(entries@) =~= e0 + (before + fresh));
                    assert(views(targets@) =~= t0 + (resolved(before) + resolved(fresh)));
                }
                k += 1;
            }
        },
        RunOn::Groups(ids) => {
            let kind = SelectorKind::Groups;
            let mut k: usize = 0;
            while k < ids.len()
                invariant
                    k <= ids.len(),
                    kind == SelectorKind::Groups,
                    sel == (RunOnView { kind: SelectorKind::Groups, ids: views(ids@) }),
                    views(entries@) == e0 + selector_entries_upto(sel, t as nat, r as nat, inventory@, k as nat),
                    views(targets@) == t0 + resolved(
                        selector_entries_upto(sel, t as nat, r as nat, inventory@, k as nat),
                    ),
                decreases ids.len() - k,
            {
                let ghost before = selector_entries_upto(sel, t as nat, r as nat, inventory@, k as nat);
                let ghost fresh = ident_entries(
                    sel.kind,
                    sel.ids[k as int],
                    entry_path(sel.ids[k as int], t as nat, r as nat, variant_name(sel.kind), k as nat),
                    inventory@,
                );
                {
                    let found = inventory.find_by_group(&ids[k]);
                    let path = make_entry_path(ids[k].as_str(), t, r, kind.name(), k);
                    record_group(found, path, entries, targets);
                }
                proof {
                    assert(sel.ids[k as int] == ids@[k as int]@);
                    assert(selector_entries_upto(sel, t as nat, r as nat, inventory@, (k + 1) as nat)
                        == before + fresh);
                    resolved_of_concat(before, fresh);
                    assert(views(entries@) =~= e0 + (before + fresh));
                    assert(views(targets@) =~= t0 + (resolved(before) + resolved(fresh)));
                }
                k += 1;
            }
        },
    }
}

/// Resolves every selector of task `t`, in order: the attempts, and the
/// targets found.
fn resolve_task(task: &TaskDesc, t: usize, inventory: &Targets) -> (r: (Vec<Entry>, Vec<Target>))
    ensures
        views(r.0@) == task_entries(task@, t as nat, inventory@),
        views(r.1@) == resolved(task_entries(task@, t as nat, inventory@)),
{
    let mut entries: Vec<Entry> = Vec::new();
    let mut targets: Vec<Target> = Vec::new();
    proof {
        assert(views(entries@) =~= Seq::<EntryView>::empty());
        assert(views(targets@) =~= Seq::<TargetView>::empty());
        assert(resolved(Seq::<EntryView>::empty()) =~= Seq::<TargetView>::empty());
    }
    let mut r: usize = 0;
    while r < task.run_on.len()
        invariant
            r <= task.run_on.len(),
            views(entries@) == task_entries_upto(task@, t as nat, inventory@, r as nat),
            views(targets@) == resolved(task_entries_upto(task@, t as nat, inventory@, r as nat)),
        decreases task.run_on.len() - r,
    {
        let ghost before = task_entries_upto(task@, t as nat, inventory@, r as nat);
        let ghost fresh = selector_entries(task@.run_on[r as int], t as nat, r as nat, inventory@);
        proof {
            assert(task@.run_on[r as int] == task.run_on@[r as int]@);
        }
        resolve_selector(&task.run_on[r], t, r, inventory, &mut entries, &mut targets);
        proof {
            assert(task_entries_upto(task@, t as nat, inventory@, (r + 1) as nat) == before + fresh);
            resolved_of_concat(before, fresh);
        }
        r += 1;
    }
    (entries, targets)
}


/// Mathematical model of a [`DecodedTask`].
pub struct DecodedTaskView {
    pub desc: TaskDescView,
    pub binary: Result<Seq<u8>, Seq<char>>,
}

/// A task description together with what decoding its binary gave: the
/// octets, or the decoder's objection.
#[derive(Debug)]
pub struct DecodedTask<'a> {
    /// The description.
    pub desc: &'a TaskDesc,
    /// The decoded binary, or why it could not be decoded.
    pub binary: Result<Vec<u8>, String>,
}

impl<'a> View for DecodedTask<'a> {
    type V = DecodedTaskView;

    open spec fn view(&self) -> DecodedTaskView {
        DecodedTaskView { desc: self.desc@, binary: decoding_view(self.binary) }
    }
}

/// The attempts of the first `n` tasks of a job.
pub open spec fn job_entries_upto(
    tasks: Seq<DecodedTaskView>,
    inventory: Seq<TargetView>,
    n: nat,
) -> Seq<EntryView>
    decreases n,
{
    if n == 0 {
        Seq::empty()
    } else {
        let t = (n - 1) as nat;
        job_entries_upto(tasks, inventory, t) + task_entries(tasks[t as int].desc, t, inventory)
    }
}

/// All attempts of a job, in the order of its tasks, selectors and
/// identifiers.
pub open spec fn job_entries(tasks: Seq<DecodedTaskView>, inventory: Seq<TargetView>) -> Seq<
    EntryView,
> {
    job_entries_upto(tasks, inventory, tasks.len())
}

/// The problems of task `t` by itself: that it names no target, and that its
/// binary does not decode.
pub open spec fn task_errors(task: DecodedTaskView, t: nat, inventory: Seq<TargetView>) -> Seq<
    ValidationErrorView,
> {
    let no_target = if task_entries(task.desc, t, inventory).len() == 0 {
        seq![ValidationErrorView::NoTargetChosen { entry: run_on_path(t) }]
    } else {
        Seq::empty()
    };
    let no_binary = match task.binary {
        Ok(_) => Seq::empty(),
        Err(details) => seq![
            ValidationErrorView::Base64DecodingFailed {
                entry: binary_path(t),
                error_details: details,
            },
        ],
    };
    no_target + no_binary
}

/// The problems that the first `n` tasks have by themselves.
pub open spec fn task_errors_upto(
    tasks: Seq<DecodedTaskView>,
    inventory: Seq<TargetView>,
    n: nat,
) -> Seq<ValidationErrorView>
    decreases n,
{
    if n == 0 {
        Seq::empty()
    } else {
        let t = (n - 1) as nat;
        task_errors_upto(tasks, inventory, t) + task_errors(tasks[t as int], t, inventory)
    }
}

/// One problem for each of the first `n` attempts that found no target.
pub open spec fn unavailable_upto(entries: Seq<EntryView>, n: nat) -> Seq<ValidationErrorView>
    decreases n,
{
    if n == 0 {
        Seq::empty()
    } else {
        let i = (n - 1) as int;
        let head = unavailable_upto(entries, (n - 1) as nat);
        if entries[i].target is None {
            head.push(ValidationErrorView::TargetNotAvailable { entry: entries[i].path })
        } else {
            head
        }
    }
}

/// Both attempts found a target, and the two targets share a probe serial.
pub open spec fn same_target(a: EntryView, b: EntryView) -> bool {
    &&& a.target matches Some(x)
    &&& b.target matches Some(y)
    &&& x.probe_serial == y.probe_serial
}

/// An attempt before attempt `i` found the target that attempt `i` found.
pub open spec fn seen_before(entries: Seq<EntryView>, i: int) -> bool {
    exists|j: int| 0 <= j < i && #[trigger] same_target(entries[j], entries[i])
}

/// An attempt after attempt `i` found the target that attempt `i` found.
pub open spec fn seen_after(entries: Seq<EntryView>, i: int) -> bool {
    exists|j: int| i < j < entries.len() && #[trigger] same_target(entries[i], entries[j])
}

/// The paths of those of the first `n` attempts that found the target of
/// `of`.
pub open spec fn paths_upto(entries: Seq<EntryView>, of: EntryView, n: nat) -> Seq<Seq<char>>
    decreases n,
{
    if n == 0 {
        Seq::empty()
    } else {
        let i = (n - 1) as int;
        let head = paths_upto(entries, of, (n - 1) as nat);
        if same_target(of, entries[i]) {
            head.push(entries[i].path)
        } else {
            head
        }
    }
}

/// Attempt `i` is the first of several that found one target.
pub open spec fn leads_duplicates(entries: Seq<EntryView>, i: int) -> bool {
    entries[i].target is Some && !seen_before(entries, i) && seen_after(entries, i)
}

/// One problem for each target that several attempts found, taken at the
/// first of them among the first `n` attempts: the target as that attempt
/// found it, and the paths of all attempts that found it.
pub open spec fn duplicates_upto(entries: Seq<EntryView>, n: nat) -> Seq<ValidationErrorView>
    decreases n,
{
    if n == 0 {
        Seq::empty()
    } else {
        let i = (n - 1) as int;
        let head = duplicates_upto(entries, (n - 1) as nat);
        if leads_duplicates(entries, i) {
            head.push(
                ValidationErrorView::TargetIsNotUnique {
                    target: entries[i].target->0,
                    entries: paths_upto(entries, entries[i], entries.len()),
                },
            )
        } else {
            head
        }
    }
}

/// Every problem of a job: those of each task by itself, then the attempts
/// that found no target, then the targets found more than once.
pub open spec fn validation_errors(
    tasks: Seq<DecodedTaskView>,
    inventory: Seq<TargetView>,
) -> Seq<ValidationErrorView> {
    let entries = job_entries(tasks, inventory);
    task_errors_upto(tasks, inventory, tasks.len()) + unavailable_upto(entries, entries.len())
        + duplicates_upto(entries, entries.len())
}

/// What validation owes for `tasks` and `inventory`: with no problem, one
/// task for each description, in order, on the targets that its selectors
/// found and with its decoded binary, under a random identifier; else every
/// problem.
pub open spec fn coherent(
    tasks: Seq<DecodedTaskView>,
    inventory: Seq<TargetView>,
    outcome: Result<Vec<Task>, ValidationErrors>,
) -> bool {
    match outcome {
        Ok(out) => {
            &&& validation_errors(tasks, inventory).len() == 0
            &&& out@.len() == tasks.len()
            &&& forall|t: int|
                0 <= t < tasks.len() ==> (#[trigger] out@[t])@.targets == resolved(
                    task_entries(tasks[t].desc, t as nat, inventory),
                ) && tasks[t].binary == Ok::<Seq<u8>, Seq<char>>(out@[t]@.binary)
                    && is_version_four(out@[t]@.id)
        },
        Err(errors) => {
            &&& validation_errors(tasks, inventory).len() > 0
            &&& errors@ == validation_errors(tasks, inventory)
        },
    }
}

/// Whether entries `a` and `b` found targets with one probe serial.
fn found_same_target(a: &Entry, b: &Entry) -> (r: bool)
    ensures
        r == same_target(a@, b@),
{
    match (&a.target, &b.target) {
        (Some(x), Some(y)) => x.probe_serial == y.probe_serial,
        _ => false,
    }
}

/// Appends one problem for each attempt that found no target.
fn report_unavailable(entries: &Vec<Entry>, errors: &mut Vec<ValidationError>)
    ensures
        views(final(errors)@) == views(old(errors)@) + unavailable_upto(
            views(entries@),
            entries@.len(),
        ),
{
    let ghost e0 = views(errors@);
    let ghost all = views(entries@);
    proof {
        assert(e0 + Seq::<ValidationErrorView>::empty() =~= e0);
    }
    let mut i: usize = 0;
    while i < entries.len()
        invariant
            i <= entries.len(),
            all == views(entries@),
            views(errors@) == e0 + unavailable_upto(all, i as nat),
        decreases entries.len() - i,
    {
        proof {
            assert(all[i as int] == entries@[i as int]@);
        }
        if entries[i].target.is_none() {
            let error = ValidationError::TargetNotAvailable { entry: entries[i].path.clone() };
            proof {
                views_of_push(errors@, error);
                assert((e0 + unavailable_upto(all, i as nat)).push(error@) =~= e0
                    + unavailable_upto(all, (i + 1) as nat));
            }
            errors.push(error);
        }
        i += 1;
    }
}

/// Whether an attempt before attempt `i` found the target of attempt `i`.
fn is_seen_before(entries: &Vec<Entry>, i: usize) -> (r: bool)
    requires
        i < entries.len(),
    ensures
        r == seen_before(views(entries@), i as int),
{
    let ghost all = views(entries@);
    let mut j: usize = 0;
    while j < i
        invariant
            j <= i < entries.len(),
            all == views(entries@),
            forall|k: int| 0 <= k < j ==> !#[trigger] same_target(all[k], all[i as int]),
        decreases i - j,
    {
        proof {
            assert(all[j as int] == entries@[j as int]@);
            assert(all[i as int] == entries@[i as int]@);
        }
        if found_same_target(&entries[j], &entries[i]) {
            return true;
        }
        j += 1;
    }
    false
}

/// Whether an attempt after attempt `i` found the target of attempt `i`.
fn is_seen_after(entries: &Vec<Entry>, i: usize) -> (r: bool)
    requires
        i < entries.len(),
    ensures
        r == seen_after(views(entries@), i as int),
{
    let ghost all = views(entries@);
    let mut j: usize = i + 1;
    while j < entries.len()
        invariant
            i < j <= entries.len(),
            all == views(entries@),
            forall|k: int| i < k < j ==> !#[trigger] same_target(all[i as int], all[k]),
        decreases entries.len() - j,
    {
        proof {
            assert(all[j as int] == entries@[j as int]@);
            assert(all[i as int] == entries@[i as int]@);
        }
        if found_same_target(&entries[i], &entries[j]) {
            return true;
        }
        j += 1;
    }
    false
}

/// The paths of all attempts that found the target of attempt `i`.
fn paths_of(entries: &Vec<Entry>, i: usize) -> (r: Vec<String>)
    requires
        i < entries.len(),
    ensures
        views(r@) == paths_upto(views(entries@), views(entries@)[i as int], entries@.len()),
{
    let ghost all = views(entries@);
    let mut paths: Vec<String> = Vec::new();
    proof {
        assert(views(paths@) =~= Seq::<Seq<char>>::empty());
    }
    let mut j: usize = 0;
    while j < entries.len()
        invariant
            j <= entries.len(),
            i < entries.len(),
            all == views(entries@),
            views(paths@) == paths_upto(all, all[i as int], j as nat),
        decreases entries.len() - j,
    {
        proof {
            assert(all[j as int] == entries@[j as int]@);
            assert(all[i as int] == entries@[i as int]@);
        }
        if found_same_target(&entries[i], &entries[j]) {
            let path = entries[j].path.clone();
            proof {
                views_of_push(paths@, path);
            }
            paths.push(path);
        }
        j += 1;
    }
    paths
}

/// Appends one problem for each target that several attempts found.
fn report_duplicates(entries: &Vec<Entry>, errors: &mut Vec<ValidationError>)
    ensures
        views(final(errors)@) == views(old(errors)@) + duplicates_upto(
            views(entries@),
            entries@.len(),
        ),
{
    let ghost e0 = views(errors@);
    let ghost all = views(entries@);
    proof {
        assert(e0 + Seq::<ValidationErrorView>::empty() =~= e0);
    }
    let mut i: usize = 0;
    while i < entries.len()
        invariant
            i <= entries.len(),
            all == views(entries@),
            views(errors@) == e0 + duplicates_upto(all, i as nat),
        decreases entries.len() - i,
    {
        proof {
            assert(all[i as int] == entries@[i as int]@);
        }
        match &entries[i].target {
            Some(target) => {
                if !is_seen_before(entries, i) && is_seen_after(entries, i) {
                    let error = ValidationError::TargetIsNotUnique {
                        target: target.clone(),
                        entries: UnordEqVec(paths_of(entries, i)),
                    };
                    proof {
                        views_of_push(errors@, error);
                        assert((e0 + duplicates_upto(all, i as nat)).push(error@) =~= e0
                            + duplicates_upto(all, (i + 1) as nat));
                    }
                    errors.push(error);
                }
            },
            None => {},
        }
        i += 1;
    }
}

/// Validates tasks whose binaries have been decoded: resolves every
/// identifier against `available_targets` and collects every problem.
pub fn check_coherency(tasks: &Vec<DecodedTask>, available_targets: &Targets) -> (r: Result<
    Vec<Task>,
    ValidationErrors,
>)
    ensures
        coherent(views(tasks@), available_targets@, r),
{
    let ghost model = views(tasks@);
    let ghost inventory = available_targets@;
    let mut errors: Vec<ValidationError> = Vec::new();
    let mut entries: Vec<Entry> = Vec::new();
    let mut out: Vec<Task> = Vec::new();
    proof {
        assert(views(errors@) =~= Seq::<ValidationErrorView>::empty());
        assert(views(entries@) =~= Seq::<EntryView>::empty());
    }
    let mut t: usize = 0;
    while t < tasks.len()
        invariant
            t <= tasks.len(),
            model == views(tasks@),
            inventory == available_targets@,
            views(errors@) == task_errors_upto(model, inventory, t as nat),
            views(entries@) == job_entries_upto(model, inventory, t as nat),
            errors@.len() == 0 ==> out@.len() == t,
            errors@.len() == 0 ==> forall|j: int|
                0 <= j < t ==> (#[trigger] out@[j])@.targets == resolved(
                    task_entries(model[j].desc, j as nat, inventory),
                ) && model[j].binary == Ok::<Seq<u8>, Seq<char>>(out@[j]@.binary)
                    && is_version_four(out@[j]@.id),
        decreases tasks.len() - t,
    {
        let task = &tasks[t];
        proof {
            assert(model[t as int] == task@);
        }
        let ghost before_errors = views(errors@);
        let ghost before_entries = views(entries@);
        let (mut task_entries_found, task_targets) = resolve_task(task.desc, t, available_targets);
        let ghost found_entries = views(task_entries_found@);
        if task_entries_found.len() == 0 {
            let error = ValidationError::NoTargetChosen { entry: make_run_on_path(t) };
            proof {
                views_of_push(errors@, error);
            }
            errors.push(error);
        }
        match &task.binary {
            Ok(binary) => {
                let made = Task::from_desc(task_targets, binary.clone());
                if errors.len() == 0 {
                    out.push(made);
                }
            },
            Err(details) => {
                let error = ValidationError::Base64DecodingFailed {
                    entry: make_binary_path(t),
                    error_details: details.clone(),
                };
                proof {
                    views_of_push(errors@, error);
                }
                errors.push(error);
            },
        }
        proof {
            assert(views(errors@) =~= before_errors + task_errors(model[t as int], t as nat, inventory));
        }
        entries.append(&mut task_entries_found);
        proof {
            assert(views(entries@) =~= before_entries + found_entries);
        }
        t += 1;
    }
    report_unavailable(&entries, &mut errors);
    report_duplicates(&entries, &mut errors);
    if errors.len() == 0 {
        proof {
            assert(validation_errors(model, inventory).len() == 0);
        }
        Ok(out)
    } else {
        Err(ValidationErrors::new(errors))
    }
}


/// Each description with what `base64::decode` makes of its binary.
pub open spec fn decoded(descs: Seq<TaskDescView>) -> Seq<DecodedTaskView> {
    Seq::new(
        descs.len(),
        |t: int| DecodedTaskView { desc: descs[t], binary: base64_decoding(descs[t].binary_b64) },
    )
}

/// Decodes the binary of each task description.
pub fn decode_tasks(task_descs: &[TaskDesc]) -> (r: Vec<DecodedTask<'_>>)
    ensures
        views(r@) == decoded(views(task_descs@)),
{
    let mut out: Vec<DecodedTask> = Vec::new();
    let mut t: usize = 0;
    while t < task_descs.len()
        invariant
            t <= task_descs.len(),
            out@.len() == t,
            forall|j: int|
                0 <= j < t ==> (#[trigger] out@[j])@ == (DecodedTaskView {
                    desc: task_descs@[j]@,
                    binary: base64_decoding(task_descs@[j]@.binary_b64),
                }),
        decreases task_descs.len() - t,
    {
        let desc = &task_descs[t];
        out.push(DecodedTask { desc, binary: decode_base64(desc.binary_b64.as_str()) });
        t += 1;
    }
    assert(views(out@) =~= decoded(views(task_descs@)));
    out
}

/// Validates task descriptions against the inventory:
///
/// - every identifier of every selector resolves to a target,
/// - every task names at least one target,
/// - no target is named twice, within a task, between tasks or through a
///   group,
/// - every binary is base64 text.
///
/// The outcome is that of [`check_coherency`] on the descriptions with their
/// binaries decoded.
pub fn validate_tasks_coherency(task_descs: &[TaskDesc], available_targets: &Targets) -> (r: Result<
    Vec<Task>,
    ValidationErrors,
>)
    ensures
        coherent(decoded(views(task_descs@)), available_targets@, r),
{
    let tasks = decode_tasks(task_descs);
    check_coherency(&tasks, available_targets)
}

impl Job {
    /// Validates `desc` against the inventory and, where nothing is wrong
    /// with it, makes the job: its tasks as [`validate_tasks_coherency`]
    /// gives them, its timeout that of the description, and identifiers
    /// drawn afresh for the job and each task.
    pub fn from_desc(desc: JobDesc, available_targets: &Targets) -> (r: Result<Self, ValidationErrors>)
        ensures
            match r {
                Ok(job) => coherent(decoded(desc@.tasks), available_targets@, Ok(job.tasks))
                    && job.timeout_secs == desc.timeout_secs && is_version_four(job.id),
                Err(errors) => coherent(decoded(desc@.tasks), available_targets@, Err(errors)),
            },
    {
        match validate_tasks_coherency(desc.tasks.as_slice(), available_targets) {
            Ok(tasks) => Ok(Job { id: fresh_uuid(), tasks, timeout_secs: desc.timeout_secs as u64 }),
            Err(errors) => Err(errors),
        }
    }
}


/// The first `n` of `parts`, put together with `", "` between them.
pub open spec fn joined_upto(parts: Seq<Seq<char>>, n: nat) -> Seq<char>
    decreases n,
{
    if n == 0 {
        Seq::empty()
    } else if n == 1 {
        parts[0]
    } else {
        joined_upto(parts, (n - 1) as nat) + ", "@ + parts[n - 1]
    }
}

/// The words in which a problem is reported.
pub open spec fn problem_text(problem: ValidationErrorView) -> Seq<char> {
    match problem {
        ValidationErrorView::TargetNotAvailable { entry } =>
            "Cannot resolve the target for an entry: "@ + entry,
        ValidationErrorView::TargetIsNotUnique { target, entries } =>
            "Multiple entries resolve to the same target (probe serial: '"@ + target.probe_serial
                + "'): "@ + joined_upto(entries, entries.len()) + ". Must be unique"@,
        ValidationErrorView::Base64DecodingFailed { entry, error_details } =>
            "Decoding of base64 encoded binary failed for an entry: "@ + entry + ": "@
                + error_details,
        ValidationErrorView::NoTargetChosen { entry } => "Given task does not define any targets"@,
    }
}

/// The words of the first `n` problems, each led by an empty line.
pub open spec fn problems_text_upto(problems: Seq<ValidationErrorView>, n: nat) -> Seq<char>
    decreases n,
{
    if n == 0 {
        Seq::empty()
    } else {
        problems_text_upto(problems, (n - 1) as nat) + "\n\n"@ + problem_text(problems[n - 1])
    }
}

impl ValidationError {
    /// The problem in words.
    pub fn message(&self) -> (r: String)
        ensures
            r@ == problem_text(self@),
    {
        match self {
            ValidationError::TargetNotAvailable { entry } => {
                let mut s = String::from_str("Cannot resolve the target for an entry: ");
                s.append(entry.as_str());
                s
            },
            ValidationError::TargetIsNotUnique { target, entries } => {
                let mut s = String::from_str(
                    "Multiple entries resolve to the same target (probe serial: '",
                );
                s.append(target.probe_serial.as_str());
                s.append("'): ");
                let ghost head = s@;
                let parts = entries.as_vec();
                let mut i: usize = 0;
                while i < parts.len()
                    invariant
                        i <= parts.len(),
                        s@ == head + joined_upto(views(parts@), i as nat),
                    decreases parts.len() - i,
                {
                    if i > 0 {
                        s.append(", ");
                    }
                    s.append(parts[i].as_str());
                    assert(views(parts@)[i as int] == parts@[i as int]@);
                    assert(s@ =~= head + joined_upto(views(parts@), (i + 1) as nat));
                    i += 1;
                }
                s.append(". Must be unique");
                s
            },
            ValidationError::Base64DecodingFailed { entry, error_details } => {
                let mut s = String::from_str(
                    "Decoding of base64 encoded binary failed for an entry: ",
                );
                s.append(entry.as_str());
                s.append(": ");
                s.append(error_details.as_str());
                s
            },
            ValidationError::NoTargetChosen { entry: _ } => String::from_str(
                "Given task does not define any targets",
            ),
        }
    }
}

impl ValidationErrors {
    /// All problems in words: a heading, then each problem after an empty
    /// line.
    pub fn message(&self) -> (r: String)
        ensures
            r@ == "Validation failed: "@ + problems_text_upto(self@, self@.len()),
    {
        let mut s = String::from_str("Validation failed: ");
        let problems = self.errors.as_vec();
        let mut i: usize = 0;
        while i < problems.len()
            invariant
                i <= problems.len(),
                s@ == "Validation failed: "@ + problems_text_upto(views(problems@), i as nat),
            decreases problems.len() - i,
        {
            s.append("\n\n");
            s.append(problems[i].message().as_str());
            assert(views(problems@)[i as int] == problems@[i as int]@);
            assert(s@ =~= "Validation failed: "@ + problems_text_upto(
                views(problems@),
                (i + 1) as nat,
            ));
            i += 1;
        }
        s
    }
}

} // verus!
