//! What validation guarantees: laws over the model of
//! [`check_coherency`](crate::validate::check_coherency).

use crate::executor::{
    all_placed, empty_results_match, every_run_has_its_place, has_place, job_runs,
    planned_run_is_of_a_target,
    ExecutionPhase, ExecutionView,
};
use crate::job::{distinct_task_ids, empty_job_result, Job, Task, TaskDescView};
use crate::settings::ProbeConfigView;
use crate::target::TargetView;
use crate::text::{run_on_path, run_on_path_is_injective};
use crate::validate::{
    coherent, decoded, duplicates_upto, job_entries, leads_duplicates, same_target, seen_after,
    task_entries, task_errors, task_errors_upto, unavailable_upto, validation_errors,
    DecodedTaskView, EntryView, ValidationErrorView, ValidationErrors,
};
use vstd::prelude::*;

verus! {

/// Validation is a function of the descriptions and the inventory: two
/// outcomes for the same input both accept or both refuse; where they
/// refuse, they hold the same problems in the same order; where they accept,
/// their tasks run the same binaries on the same targets.
pub proof fn validation_is_deterministic(
    descs: Seq<TaskDescView>,
    inventory: Seq<TargetView>,
    first: Result<Vec<Task>, ValidationErrors>,
    second: Result<Vec<Task>, ValidationErrors>,
)
    requires
        coherent(decoded(descs), inventory, first),
        coherent(decoded(descs), inventory, second),
    ensures
        first is Ok <==> second is Ok,
        first matches Err(a) ==> second matches Err(b) && a@ == b@,
        first matches Ok(a) ==> second matches Ok(b) && a@.len() == b@.len() && forall|t: int|
            0 <= t < a@.len() ==> (#[trigger] a@[t])@.targets == b@[t]@.targets && a@[t]@.binary
                == b@[t]@.binary,
{
}

/// How often `x` occurs in `s`.
pub open spec fn occurrences(s: Seq<ValidationErrorView>, x: ValidationErrorView) -> nat
    decreases s.len(),
{
    if s.len() == 0 {
        0
    } else {
        occurrences(s.drop_last(), x) + if s.last() == x {
            1nat
        } else {
            0nat
        }
    }
}

proof fn occurrences_of_push(s: Seq<ValidationErrorView>, e: ValidationErrorView, x: ValidationErrorView)
    ensures
        occurrences(s.push(e), x) == occurrences(s, x) + if e == x {
            1nat
        } else {
            0nat
        },
{
    assert(s.push(e).drop_last() =~= s);
}

proof fn occurrences_of_concat(
    a: Seq<ValidationErrorView>,
    b: Seq<ValidationErrorView>,
    x: ValidationErrorView,
)
    ensures
        occurrences(a + b, x) == occurrences(a, x) + occurrences(b, x),
    decreases b.len(),
{
    if b.len() == 0 {
        assert(a + b =~= a);
    } else {
        assert((a + b).drop_last() =~= a + b.drop_last());
        occurrences_of_concat(a, b.drop_last(), x);
    }
}

proof fn occurrences_of_one(e: ValidationErrorView, x: ValidationErrorView)
    ensures
        occurrences(seq![e], x) == if e == x {
            1nat
        } else {
            0nat
        },
        occurrences(Seq::empty(), x) == 0,
{
    assert(seq![e] =~= Seq::<ValidationErrorView>::empty().push(e));
    occurrences_of_push(Seq::empty(), e, x);
}

proof fn no_target_among_task_errors(
    tasks: Seq<DecodedTaskView>,
    inventory: Seq<TargetView>,
    n: nat,
    i: nat,
)
    requires
        n <= tasks.len(),
    ensures
        occurrences(
            task_errors_upto(tasks, inventory, n),
            ValidationErrorView::NoTargetChosen { entry: run_on_path(i) },
        ) == if i < n && task_entries(tasks[i as int].desc, i, inventory).len() == 0 {
            1nat
        } else {
            0nat
        },
    decreases n,
{
    let x = ValidationErrorView::NoTargetChosen { entry: run_on_path(i) };
    if n == 0 {
    } else {
        let t = (n - 1) as nat;
        let task = tasks[t as int];
        no_target_among_task_errors(tasks, inventory, t, i);
        occurrences_of_concat(
            task_errors_upto(tasks, inventory, t),
            task_errors(task, t, inventory),
            x,
        );
        let no_target = if task_entries(task.desc, t, inventory).len() == 0 {
            seq![ValidationErrorView::NoTargetChosen { entry: run_on_path(t) }]
        } else {
            Seq::empty()
        };
        let no_binary = match task.binary {
            Ok(_) => Seq::empty(),
            Err(details) => seq![
                ValidationErrorView::Base64DecodingFailed {
                    entry: crate::text::binary_path(t),
                    error_details: details,
                },
            ],
        };
        assert(task_errors(task, t, inventory) == no_target + no_binary);
        occurrences_of_concat(no_target, no_binary, x);
        occurrences_of_one(ValidationErrorView::NoTargetChosen { entry: run_on_path(t) }, x);
        match task.binary {
            Ok(_) => {},
            Err(details) => {
                occurrences_of_one(
                    ValidationErrorView::Base64DecodingFailed {
                        entry: crate::text::binary_path(t),
                        error_details: details,
                    },
                    x,
                );
            },
        }
        if run_on_path(t) == run_on_path(i) {
            run_on_path_is_injective(t, i);
        }
    }
}

proof fn no_target_not_among_unavailable(entries: Seq<EntryView>, n: nat, x: ValidationErrorView)
    requires
        x is NoTargetChosen,
    ensures
        occurrences(unavailable_upto(entries, n), x) == 0,
    decreases n,
{
    if n > 0 {
        no_target_not_among_unavailable(entries, (n - 1) as nat, x);
        let i = (n - 1) as int;
        occurrences_of_push(
            unavailable_upto(entries, (n - 1) as nat),
            ValidationErrorView::TargetNotAvailable { entry: entries[i].path },
            x,
        );
    }
}

proof fn no_target_not_among_duplicates(entries: Seq<EntryView>, n: nat, x: ValidationErrorView)
    requires
        x is NoTargetChosen,
    ensures
        occurrences(duplicates_upto(entries, n), x) == 0,
    decreases n,
{
    if n > 0 {
        no_target_not_among_duplicates(entries, (n - 1) as nat, x);
        let i = (n - 1) as int;
        occurrences_of_push(
            duplicates_upto(entries, (n - 1) as nat),
            ValidationErrorView::TargetIsNotUnique {
                target: entries[i].target->0,
                entries: crate::validate::paths_upto(entries, entries[i], entries.len()),
            },
            x,
        );
    }
}

/// A task whose selectors list no identifier is reported exactly once as
/// having chosen no target, under the path of its selectors; a task that
/// lists one is not reported so.
pub proof fn no_target_chosen_is_reported_once(
    tasks: Seq<DecodedTaskView>,
    inventory: Seq<TargetView>,
    i: nat,
)
    requires
        i < tasks.len(),
    ensures
        occurrences(
            validation_errors(tasks, inventory),
            ValidationErrorView::NoTargetChosen { entry: run_on_path(i) },
        ) == if task_entries(tasks[i as int].desc, i, inventory).len() == 0 {
            1nat
        } else {
            0nat
        },
{
    let x = ValidationErrorView::NoTargetChosen { entry: run_on_path(i) };
    let entries = job_entries(tasks, inventory);
    let a = task_errors_upto(tasks, inventory, tasks.len());
    let b = unavailable_upto(entries, entries.len());
    let c = duplicates_upto(entries, entries.len());
    no_target_among_task_errors(tasks, inventory, tasks.len(), i);
    no_target_not_among_unavailable(entries, entries.len(), x);
    no_target_not_among_duplicates(entries, entries.len(), x);
    occurrences_of_concat(a, b, x);
    occurrences_of_concat(a + b, c, x);
}

/// A task with an empty list of selectors is reported exactly once as having
/// chosen no target, under the path of its selectors.
pub proof fn empty_run_on_is_reported_once(
    tasks: Seq<DecodedTaskView>,
    inventory: Seq<TargetView>,
    i: nat,
)
    requires
        i < tasks.len(),
        tasks[i as int].desc.run_on.len() == 0,
    ensures
        occurrences(
            validation_errors(tasks, inventory),
            ValidationErrorView::NoTargetChosen { entry: run_on_path(i) },
        ) == 1,
{
    no_target_chosen_is_reported_once(tasks, inventory, i);
}

/// Every task names a target, every attempt found one, and no two attempts
/// found the same.
pub open spec fn uniquely_resolved(tasks: Seq<DecodedTaskView>, inventory: Seq<TargetView>) -> bool {
    let entries = job_entries(tasks, inventory);
    &&& forall|t: int|
        0 <= t < tasks.len() ==> (#[trigger] task_entries(tasks[t].desc, t as nat, inventory)).len()
            > 0
    &&& forall|i: int| 0 <= i < entries.len() ==> (#[trigger] entries[i]).target is Some
    &&& forall|i: int, j: int|
        0 <= i < j < entries.len() ==> !#[trigger] same_target(entries[i], entries[j])
}

/// The binary of every task decoded.
pub open spec fn decodable(tasks: Seq<DecodedTaskView>) -> bool {
    forall|t: int| 0 <= t < tasks.len() ==> (#[trigger] tasks[t]).binary is Ok
}

proof fn no_task_errors(tasks: Seq<DecodedTaskView>, inventory: Seq<TargetView>, n: nat)
    requires
        n <= tasks.len(),
        uniquely_resolved(tasks, inventory),
        decodable(tasks),
    ensures
        task_errors_upto(tasks, inventory, n) == Seq::<ValidationErrorView>::empty(),
    decreases n,
{
    if n > 0 {
        let t = (n - 1) as nat;
        no_task_errors(tasks, inventory, t);
        assert(task_entries(tasks[t as int].desc, t, inventory).len() > 0);
        assert(tasks[t as int].binary is Ok);
        assert(task_errors(tasks[t as int], t, inventory) =~= Seq::<ValidationErrorView>::empty());
        assert(task_errors_upto(tasks, inventory, n) =~= Seq::<ValidationErrorView>::empty());
    }
}

proof fn none_unavailable(entries: Seq<EntryView>, n: nat)
    requires
        n <= entries.len(),
        forall|i: int| 0 <= i < entries.len() ==> (#[trigger] entries[i]).target is Some,
    ensures
        unavailable_upto(entries, n) == Seq::<ValidationErrorView>::empty(),
    decreases n,
{
    if n > 0 {
        none_unavailable(entries, (n - 1) as nat);
    }
}

proof fn none_duplicated(entries: Seq<EntryView>, n: nat)
    requires
        n <= entries.len(),
        forall|i: int, j: int|
            0 <= i < j < entries.len() ==> !#[trigger] same_target(entries[i], entries[j]),
    ensures
        duplicates_upto(entries, n) == Seq::<ValidationErrorView>::empty(),
    decreases n,
{
    if n > 0 {
        none_duplicated(entries, (n - 1) as nat);
        assert(!seen_after(entries, (n - 1) as int));
    }
}

/// A job whose targets are uniquely resolved and whose binaries decode has
/// no problem, so validation accepts it.
pub proof fn uniquely_resolved_is_accepted(
    tasks: Seq<DecodedTaskView>,
    inventory: Seq<TargetView>,
    outcome: Result<Vec<Task>, ValidationErrors>,
)
    requires
        uniquely_resolved(tasks, inventory),
        decodable(tasks),
        coherent(tasks, inventory, outcome),
    ensures
        validation_errors(tasks, inventory) == Seq::<ValidationErrorView>::empty(),
        outcome is Ok,
{
    let entries = job_entries(tasks, inventory);
    no_task_errors(tasks, inventory, tasks.len());
    none_unavailable(entries, entries.len());
    none_duplicated(entries, entries.len());
    assert(validation_errors(tasks, inventory) =~= Seq::<ValidationErrorView>::empty());
}

proof fn task_errors_empty_means(
    tasks: Seq<DecodedTaskView>,
    inventory: Seq<TargetView>,
    n: nat,
    t: int,
)
    requires
        n <= tasks.len(),
        0 <= t < n,
        task_errors_upto(tasks, inventory, n).len() == 0,
    ensures
        task_entries(tasks[t].desc, t as nat, inventory).len() > 0,
        tasks[t].binary is Ok,
    decreases n,
{
    let last = (n - 1) as nat;
    assert(task_errors_upto(tasks, inventory, n) == task_errors_upto(tasks, inventory, last)
        + task_errors(tasks[last as int], last, inventory));
    if t < last {
        task_errors_empty_means(tasks, inventory, last, t);
    }
}

proof fn unavailable_empty_means(entries: Seq<EntryView>, n: nat, i: int)
    requires
        0 <= i < n,
        unavailable_upto(entries, n).len() == 0,
    ensures
        entries[i].target is Some,
    decreases n,
{
    if i < n - 1 {
        unavailable_empty_means(entries, (n - 1) as nat, i);
    }
}

proof fn duplicates_only_grow(entries: Seq<EntryView>, m: nat, n: nat)
    requires
        m <= n,
    ensures
        duplicates_upto(entries, m).len() <= duplicates_upto(entries, n).len(),
    decreases n,
{
    if m < n {
        duplicates_only_grow(entries, m, (n - 1) as nat);
    }
}

proof fn first_with_same_target(entries: Seq<EntryView>, i: int) -> (f: int)
    requires
        0 <= i < entries.len(),
        entries[i].target is Some,
    ensures
        0 <= f <= i,
        same_target(entries[f], entries[i]),
        !crate::validate::seen_before(entries, f),
    decreases i,
{
    if crate::validate::seen_before(entries, i) {
        let j = choose|j: int| 0 <= j < i && #[trigger] same_target(entries[j], entries[i]);
        first_with_same_target(entries, j)
    } else {
        i
    }
}

proof fn duplicates_empty_means(entries: Seq<EntryView>, i: int, j: int)
    requires
        0 <= i < j < entries.len(),
        duplicates_upto(entries, entries.len()).len() == 0,
    ensures
        !same_target(entries[i], entries[j]),
{
    if same_target(entries[i], entries[j]) {
        let f = first_with_same_target(entries, i);
        assert(same_target(entries[f], entries[j]));
        assert(leads_duplicates(entries, f));
        assert(duplicates_upto(entries, (f + 1) as nat).len() >= 1);
        duplicates_only_grow(entries, (f + 1) as nat, entries.len());
    }
}

/// A job without any problem has its targets uniquely resolved and its
/// binaries decoded: validation accepts no other.
pub proof fn accepted_is_uniquely_resolved(tasks: Seq<DecodedTaskView>, inventory: Seq<TargetView>)
    requires
        validation_errors(tasks, inventory).len() == 0,
    ensures
        uniquely_resolved(tasks, inventory),
        decodable(tasks),
{
    let entries = job_entries(tasks, inventory);
    assert forall|t: int| 0 <= t < tasks.len() implies (#[trigger] task_entries(
        tasks[t].desc,
        t as nat,
        inventory,
    )).len() > 0 && tasks[t].binary is Ok by {
        task_errors_empty_means(tasks, inventory, tasks.len(), t);
    }
    assert forall|t: int| 0 <= t < tasks.len() implies (#[trigger] tasks[t]).binary is Ok by {
        task_errors_empty_means(tasks, inventory, tasks.len(), t);
    }
    assert forall|i: int| 0 <= i < entries.len() implies (#[trigger] entries[i]).target is Some by {
        unavailable_empty_means(entries, entries.len(), i);
    }
    assert forall|i: int, j: int| 0 <= i < j < entries.len() implies !#[trigger] same_target(
        entries[i],
        entries[j],
    ) by {
        duplicates_empty_means(entries, i, j);
    }
}

proof fn task_entries_lie_in_job_entries(
    tasks: Seq<DecodedTaskView>,
    inventory: Seq<TargetView>,
    n: nat,
    t: nat,
)
    requires
        t < n <= tasks.len(),
    ensures
        crate::validate::job_entries_upto(tasks, inventory, t).len() + task_entries(
            tasks[t as int].desc,
            t,
            inventory,
        ).len() <= crate::validate::job_entries_upto(tasks, inventory, n).len(),
        forall|k: int|
            0 <= k < task_entries(tasks[t as int].desc, t, inventory).len()
                ==> crate::validate::job_entries_upto(tasks, inventory, n)[
                crate::validate::job_entries_upto(tasks, inventory, t).len() + k] == #[trigger] task_entries(
                tasks[t as int].desc,
                t,
                inventory,
            )[k],
    decreases n,
{
    if t + 1 < n {
        task_entries_lie_in_job_entries(tasks, inventory, (n - 1) as nat, t);
    }
}

proof fn resolved_when_all_found(entries: Seq<EntryView>)
    requires
        forall|i: int| 0 <= i < entries.len() ==> (#[trigger] entries[i]).target is Some,
    ensures
        crate::validate::resolved(entries).len() == entries.len(),
        forall|i: int|
            0 <= i < entries.len() ==> #[trigger] crate::validate::resolved(entries)[i]
                == entries[i].target->0,
    decreases entries.len(),
{
    if entries.len() > 0 {
        resolved_when_all_found(entries.drop_last());
    }
}

/// In a job that validation accepted no probe serial occurs twice: whatever
/// two places among the targets of its tasks one takes, the targets there
/// have different probe serials.
pub proof fn accepted_job_has_unique_serials(
    tasks: Seq<DecodedTaskView>,
    inventory: Seq<TargetView>,
    out: Vec<Task>,
    t1: int,
    k1: int,
    t2: int,
    k2: int,
)
    requires
        coherent(tasks, inventory, Ok(out)),
        0 <= t1 < out@.len(),
        0 <= t2 < out@.len(),
        0 <= k1 < out@[t1]@.targets.len(),
        0 <= k2 < out@[t2]@.targets.len(),
        t1 != t2 || k1 != k2,
    ensures
        out@[t1]@.targets[k1].probe_serial != out@[t2]@.targets[k2].probe_serial,
    decreases
            if t1 > t2 {
                1nat
            } else {
                0nat
            },
{
    if t1 > t2 {
        accepted_job_has_unique_serials(tasks, inventory, out, t2, k2, t1, k1);
    } else {
        let entries = job_entries(tasks, inventory);
        accepted_is_uniquely_resolved(tasks, inventory);
        let e1 = task_entries(tasks[t1].desc, t1 as nat, inventory);
        let e2 = task_entries(tasks[t2].desc, t2 as nat, inventory);
        let o1 = crate::validate::job_entries_upto(tasks, inventory, t1 as nat).len();
        let o2 = crate::validate::job_entries_upto(tasks, inventory, t2 as nat).len();
        task_entries_lie_in_job_entries(tasks, inventory, tasks.len(), t1 as nat);
        task_entries_lie_in_job_entries(tasks, inventory, tasks.len(), t2 as nat);
        assert forall|k: int| 0 <= k < e1.len() implies (#[trigger] e1[k]).target is Some by {
            assert(entries[o1 + k] == e1[k]);
        }
        assert forall|k: int| 0 <= k < e2.len() implies (#[trigger] e2[k]).target is Some by {
            assert(entries[o2 + k] == e2[k]);
        }
        resolved_when_all_found(e1);
        resolved_when_all_found(e2);
        assert(out@[t1]@.targets == crate::validate::resolved(e1));
        assert(out@[t2]@.targets == crate::validate::resolved(e2));
        assert(entries[o1 + k1] == e1[k1]);
        assert(entries[o2 + k2] == e2[k2]);
        if t1 < t2 {
            task_entries_lie_in_job_entries(tasks, inventory, t2 as nat, t1 as nat);
            assert(o1 + k1 < o2 + k2);
        } else {
            assert(o1 == o2);
        }
        if o1 + k1 < o2 + k2 {
            assert(!same_target(entries[o1 + k1], entries[o2 + k2]));
        } else {
            assert(!same_target(entries[o2 + k2], entries[o1 + k1]));
        }
    }
}

/// A job that validation accepted and whose tasks have different
/// identifiers, as every admitted job has, begins its execution with a place
/// among its results for the outcome of every run of its plan.
pub proof fn admitted_job_places_every_run(
    tasks: Seq<DecodedTaskView>,
    inventory: Seq<TargetView>,
    job: Job,
    configs: Seq<ProbeConfigView>,
)
    requires
        coherent(tasks, inventory, Ok(job.tasks)),
        distinct_task_ids(job@.tasks),
    ensures
        all_placed(
            ExecutionView {
                phase: ExecutionPhase::Spawning,
                results: empty_job_result(job@),
                runs: job_runs(job@, configs),
                reported: 0,
                unplaced: 0,
            },
        ),
{
    let results = empty_job_result(job@);
    let runs = job_runs(job@, configs);
    empty_results_match(job@);
    assert forall|i: int| 0 <= i < runs.len() implies has_place(
        results,
        (#[trigger] runs[i]).task_id,
        runs[i].probe_serial,
    ) by {
        let place = planned_run_is_of_a_target(job@, configs, job@.tasks.len(), i);
        let t = place.0;
        let k = place.1;
        assert(job@.tasks[t] == job.tasks@[t]@);
        assert forall|a: int, b: int| 0 <= a < b < job@.tasks[t].targets.len() implies (
        #[trigger] job@.tasks[t].targets[a]).probe_serial != (
        #[trigger] job@.tasks[t].targets[b]).probe_serial by {
            accepted_job_has_unique_serials(tasks, inventory, job.tasks, t, a, t, b);
        }
        every_run_has_its_place(job@, results, t, k);
    }
}

/// Two jobs made of one description do the same work: they have the same
/// timeout and, task by task, the same targets and the same binary. Their
/// identifiers are drawn apart from the description.
pub proof fn same_description_gives_same_work(
    descs: Seq<TaskDescView>,
    inventory: Seq<TargetView>,
    first: Vec<Task>,
    second: Vec<Task>,
)
    requires
        coherent(decoded(descs), inventory, Ok(first)),
        coherent(decoded(descs), inventory, Ok(second)),
    ensures
        first@.len() == second@.len(),
        forall|t: int|
            0 <= t < first@.len() ==> (#[trigger] first@[t])@.targets == second@[t]@.targets
                && first@[t]@.binary == second@[t]@.binary,
{
}

} // verus!
