//! What reconciling achieves, stated against a model of the authorization
//! service and proved of the machine's steps.
//!
//! The model is a faultless service: a map from kind and name to the stored
//! record, on which every call takes effect. Failures are covered where the
//! replies are scripted instead ([`replay`]).

use crate::api::{change_view, record_view, RemoteCallView, RemoteRecordView};
use crate::reconciler::{
    progress_view, start_view, step_view, tasks_view, ActionView, Cause, MachineView, Operation,
    Phase, ReconcileEventView, ReportView, TaskView, Verdict,
};
use crate::reply::{
    absent_status, interpret_view, CallResultView, DecodedView, HttpReplyView, RemoteFailure,
};
use crate::resources::{DeclaredView, ResourceKind};
use crate::status::mark_synced_view;
use vstd::prelude::*;

verus! {

/// What the authorization service stores: the record of each kind and name.
pub type Store = Map<(ResourceKind, Seq<char>), RemoteRecordView>;

/// Every record is stored under its own kind and name.
pub open spec fn store_wf(store: Store) -> bool {
    forall|key: (ResourceKind, Seq<char>)| #[trigger]
        store.contains_key(key) ==> store[key].kind() == key.0 && store[key].name() == key.1
}

/// A faultless service: what it stores after a call, and what it answers.
/// A read answers with the record or its absence. A create stores the
/// record. An update replaces the changeable fields of the record, if there
/// is one. A delete removes the record, if there is one.
pub open spec fn serve(store: Store, call: RemoteCallView) -> (Store, CallResultView) {
    let key = (call.kind(), call.name());
    match call {
        RemoteCallView::Get { .. } => if store.contains_key(key) {
            (store, CallResultView::Found(store[key]))
        } else {
            (store, CallResultView::NotFound)
        },
        RemoteCallView::Create(record) => (store.insert(key, record), CallResultView::Done),
        RemoteCallView::Update { change, .. } => if store.contains_key(key) {
            (store.insert(key, store[key].changed(change)), CallResultView::Done)
        } else {
            (store, CallResultView::Done)
        },
        RemoteCallView::Delete { .. } => (store.remove(key), CallResultView::Done),
    }
}

/// What is handed in after an action: the service's answer to a call, the
/// fate of a patch, and nothing after a report.
pub open spec fn answer(store: Store, action: ActionView, patches_succeed: bool) -> (
    Store,
    Option<CallResultView>,
) {
    match action {
        ActionView::Call(call) => (serve(store, call).0, Some(serve(store, call).1)),
        ActionView::MarkSynced(_) => (
            store,
            Some(
                if patches_succeed {
                    CallResultView::Done
                } else {
                    CallResultView::Failed(RemoteFailure::Transport)
                },
            ),
        ),
        _ => (store, None),
    }
}

/// Where a run ended: what the service stores, and everything that the
/// machine asked for, in order.
pub struct Run {
    pub store: Store,
    pub actions: Seq<ActionView>,
}

/// The machine run against the faultless service for at most `steps`
/// steps, up to and without its `Finished`.
pub open spec fn run(
    machine: MachineView,
    reply: Option<CallResultView>,
    store: Store,
    patches_succeed: bool,
    steps: nat,
) -> Run
    decreases steps,
{
    if steps == 0 {
        Run { store, actions: seq![] }
    } else {
        let (next, action) = step_view(machine, reply);
        if action is Finished {
            Run { store, actions: seq![] }
        } else {
            let (stored, handed_in) = answer(store, action, patches_succeed);
            let rest = run(next, handed_in, stored, patches_succeed, (steps - 1) as nat);
            Run { store: rest.store, actions: seq![action] + rest.actions }
        }
    }
}

/// One event reconciled against the faultless service, from the first step
/// to `Finished`. A task takes four steps at most.
pub open spec fn settle(event: ReconcileEventView, store: Store, patches_succeed: bool) -> Run {
    run(start_view(event), None, store, patches_succeed, 4 * tasks_view(event).len() + 1)
}

/// The report that ends the upsert of `declared` with `verdict`.
pub open spec fn upsert_report(declared: DeclaredView, verdict: Verdict) -> ActionView {
    ActionView::Report(
        ReportView { kind: declared.kind(), name: declared.name(), verdict },
    )
}

/// What a write is reported as once the status has been seen to: the write,
/// unless the status patch was due and failed.
pub open spec fn written_verdict(kind: ResourceKind, verdict: Verdict, patches_succeed: bool) -> Verdict {
    if kind.carries_status() && !patches_succeed {
        Verdict::Failed {
            operation: Operation::MarkSynced,
            cause: Cause::Remote(RemoteFailure::Transport),
        }
    } else {
        verdict
    }
}

/// What follows a write that took effect: the status patch, where the kind
/// carries a status, and the report.
pub open spec fn write_tail(
    declared: DeclaredView,
    name: Seq<char>,
    verdict: Verdict,
    patches_succeed: bool,
) -> Seq<ActionView> {
    match mark_synced_view(declared.kind(), name) {
        Some(patch) => seq![
            ActionView::MarkSynced(patch),
            upsert_report(declared, written_verdict(declared.kind(), verdict, patches_succeed)),
        ],
        None => seq![upsert_report(declared, verdict)],
    }
}

/// Everything that the upsert of a named resource asks for, and what the
/// service stores after it, in each of the three cases: no record, a record
/// that has every desired field, a record that differs.
pub proof fn upsert_run(declared: DeclaredView, store: Store, patches_succeed: bool)
    requires
        store_wf(store),
        declared.name() is Some,
    ensures
        ({
            let name = declared.name()->0;
            let key = (declared.kind(), name);
            let get = ActionView::Call(RemoteCallView::Get { kind: declared.kind(), name });
            let result = settle(ReconcileEventView::Upsert(declared), store, patches_succeed);
            if !store.contains_key(key) {
                &&& result.store == store.insert(key, record_view(name, declared))
                &&& result.actions == seq![
                    get,
                    ActionView::Call(RemoteCallView::Create(record_view(name, declared))),
                ] + write_tail(declared, name, Verdict::Created, patches_succeed)
            } else if store[key].matches(declared) {
                &&& result.store == store
                &&& result.actions == seq![get, upsert_report(declared, Verdict::Unchanged)]
            } else {
                &&& result.store == store.insert(key, store[key].changed(change_view(declared)))
                &&& result.actions == seq![
                    get,
                    ActionView::Call(
                        RemoteCallView::Update { name, change: change_view(declared) },
                    ),
                ] + write_tail(declared, name, Verdict::Updated, patches_succeed)
            }
        }),
{
    reveal_with_fuel(run, 6);
    let name = declared.name()->0;
    let key = (declared.kind(), name);
    let event = ReconcileEventView::Upsert(declared);
    let result = settle(event, store, patches_succeed);
    assert(tasks_view(event).len() == 1);
    assert(tasks_view(event)[0] == TaskView::Upsert(declared));
    assert(store.contains_key(key) ==> store[key].kind() == declared.kind());
    let get = ActionView::Call(RemoteCallView::Get { kind: declared.kind(), name });
    if !store.contains_key(key) {
        let record = record_view(name, declared);
        assert(record.kind() == declared.kind() && record.name() == name);
        assert(result.actions =~= seq![get, ActionView::Call(RemoteCallView::Create(record))]
            + write_tail(declared, name, Verdict::Created, patches_succeed));
    } else if store[key].matches(declared) {
        assert(result.actions =~= seq![get, upsert_report(declared, Verdict::Unchanged)]);
    } else {
        let change = change_view(declared);
        assert(change.kind() == declared.kind());
        assert(result.actions =~= seq![
            get,
            ActionView::Call(RemoteCallView::Update { name, change }),
        ] + write_tail(declared, name, Verdict::Updated, patches_succeed));
    }
}

/// Once a resource has been reconciled, reconciling it again writes
/// nothing: the second run reads the record, finds every desired field in
/// it, and leaves the service as it is.
pub proof fn upsert_is_idempotent(
    declared: DeclaredView,
    store: Store,
    first_patches: bool,
    second_patches: bool,
)
    requires
        store_wf(store),
        declared.name() is Some,
    ensures
        ({
            let event = ReconcileEventView::Upsert(declared);
            let first = settle(event, store, first_patches);
            let second = settle(event, first.store, second_patches);
            &&& second.store == first.store
            &&& second.actions == seq![
                ActionView::Call(
                    RemoteCallView::Get { kind: declared.kind(), name: declared.name()->0 },
                ),
                upsert_report(declared, Verdict::Unchanged),
            ]
            &&& forall|i: int| 0 <= i < second.actions.len() ==> !second.actions[i].is_write()
        }),
{
    let event = ReconcileEventView::Upsert(declared);
    let first = settle(event, store, first_patches);
    upsert_run(declared, store, first_patches);
    upsert_converges(declared, store, first_patches);
    upsert_run(declared, first.store, second_patches);
}

/// After the upsert of a named resource the service stores a record under
/// its kind and name that has every desired field, and the rest of what it
/// stores is untouched.
pub proof fn upsert_converges(declared: DeclaredView, store: Store, patches_succeed: bool)
    requires
        store_wf(store),
        declared.name() is Some,
    ensures
        ({
            let key = (declared.kind(), declared.name()->0);
            let result = settle(ReconcileEventView::Upsert(declared), store, patches_succeed);
            &&& store_wf(result.store)
            &&& result.store.contains_key(key)
            &&& result.store[key].matches(declared)
            &&& forall|other: (ResourceKind, Seq<char>)|
                other != key ==> (result.store.contains_key(other) <==> store.contains_key(other))
                    && (store.contains_key(other) ==> result.store[other] == store[other])
        }),
{
    let name = declared.name()->0;
    let key = (declared.kind(), name);
    upsert_run(declared, store, patches_succeed);
    if store.contains_key(key) {
        assert(store[key].kind() == declared.kind() && store[key].name() == name);
    }
}

/// Where the service has no record of a named resource, its upsert makes
/// exactly one write: the create of a record with the resource's name and
/// every desired field. It is the second thing asked for, after the read.
pub proof fn absent_record_is_created_once(
    declared: DeclaredView,
    store: Store,
    patches_succeed: bool,
)
    requires
        store_wf(store),
        declared.name() is Some,
        !store.contains_key((declared.kind(), declared.name()->0)),
    ensures
        ({
            let result = settle(ReconcileEventView::Upsert(declared), store, patches_succeed);
            &&& result.actions.len() >= 2
            &&& result.actions[1] == ActionView::Call(
                RemoteCallView::Create(record_view(declared.name()->0, declared)),
            )
            &&& forall|i: int|
                0 <= i < result.actions.len() && i != 1 ==> !result.actions[i].is_write()
        }),
{
    upsert_run(declared, store, patches_succeed);
}

/// Where the stored record differs from a named resource, its upsert makes
/// exactly one write: the update that carries every desired field. Where
/// the stored record has every desired field, it makes none.
pub proof fn differing_record_is_updated_once(
    declared: DeclaredView,
    store: Store,
    patches_succeed: bool,
)
    requires
        store_wf(store),
        declared.name() is Some,
        store.contains_key((declared.kind(), declared.name()->0)),
    ensures
        ({
            let key = (declared.kind(), declared.name()->0);
            let result = settle(ReconcileEventView::Upsert(declared), store, patches_succeed);
            if store[key].matches(declared) {
                forall|i: int| 0 <= i < result.actions.len() ==> !result.actions[i].is_write()
            } else {
                &&& result.actions.len() >= 2
                &&& result.actions[1] == ActionView::Call(
                    RemoteCallView::Update {
                        name: declared.name()->0,
                        change: change_view(declared),
                    },
                )
                &&& forall|i: int|
                    0 <= i < result.actions.len() && i != 1 ==> !result.actions[i].is_write()
            }
        }),
{
    upsert_run(declared, store, patches_succeed);
}

/// A resource without a name is refused at once: the only thing its upsert
/// asks for is the report of the malformed input, and the service is not
/// called.
pub proof fn nameless_upsert_sends_nothing(
    declared: DeclaredView,
    store: Store,
    patches_succeed: bool,
)
    requires
        declared.name() is None,
    ensures
        ({
            let result = settle(ReconcileEventView::Upsert(declared), store, patches_succeed);
            &&& result.store == store
            &&& result.actions == seq![
                upsert_report(
                    declared,
                    Verdict::Failed { operation: Operation::Validate, cause: Cause::NoName },
                ),
            ]
        }),
{
    reveal_with_fuel(run, 3);
    let event = ReconcileEventView::Upsert(declared);
    assert(tasks_view(event)[0] == TaskView::Upsert(declared));
    let result = settle(event, store, patches_succeed);
    assert(result.actions =~= seq![
        upsert_report(
            declared,
            Verdict::Failed { operation: Operation::Validate, cause: Cause::NoName },
        ),
    ]);
}

/// A delete that the service answers with 404 has taken effect, and the
/// task is reported as deleted, not as failed. So is one that finds the
/// record gone in any other way.
pub proof fn delete_of_absent_record_succeeds(
    kind: ResourceKind,
    name: Seq<char>,
    status: u16,
    body: DecodedView,
)
    requires
        absent_status(status),
    ensures
        ({
            let task = TaskView::Delete { kind, name };
            let call = RemoteCallView::Delete { kind, name };
            let result = interpret_view(call, HttpReplyView::Response { status, body });
            let done = (
                Phase::Ready,
                ActionView::Report(ReportView { kind, name: Some(name), verdict: Verdict::Deleted }),
            );
            &&& progress_view(task, Phase::Ready, None) == (Phase::AwaitDelete, ActionView::Call(call))
            &&& result == CallResultView::Done
            &&& progress_view(task, Phase::AwaitDelete, Some(result)) == done
            &&& progress_view(task, Phase::AwaitDelete, Some(CallResultView::NotFound)) == done
        }),
{
}

/// After a delete the faultless service has no record of that kind and
/// name, whether it had one before or not, and the delete is reported as
/// deleted.
pub proof fn delete_run(kind: ResourceKind, name: Seq<char>, store: Store, patches_succeed: bool)
    ensures
        ({
            let result = settle(ReconcileEventView::Delete(kind, name), store, patches_succeed);
            &&& result.store == store.remove((kind, name))
            &&& !result.store.contains_key((kind, name))
            &&& result.actions == seq![
                ActionView::Call(RemoteCallView::Delete { kind, name }),
                ActionView::Report(ReportView { kind, name: Some(name), verdict: Verdict::Deleted }),
            ]
        }),
{
    reveal_with_fuel(run, 4);
    let event = ReconcileEventView::Delete(kind, name);
    assert(tasks_view(event)[0] == TaskView::Delete { kind, name });
    let result = settle(event, store, patches_succeed);
    assert(result.actions =~= seq![
        ActionView::Call(RemoteCallView::Delete { kind, name }),
        ActionView::Report(ReportView { kind, name: Some(name), verdict: Verdict::Deleted }),
    ]);
}

/// How many steps a task in that phase has before it at most.
pub open spec fn steps_left(phase: Phase) -> nat {
    match phase {
        Phase::Ready => 4,
        Phase::AwaitGet => 3,
        Phase::AwaitCreate => 2,
        Phase::AwaitUpdate => 2,
        Phase::AwaitStatus(_) => 1,
        Phase::AwaitDelete => 1,
    }
}

/// No event is worked on forever: every step either ends the current task
/// or brings it nearer to its end, whatever is handed in. A task takes four
/// steps at most.
pub proof fn every_step_makes_progress(machine: MachineView, reply: Option<CallResultView>)
    requires
        !machine.finished(),
    ensures
        ({
            let next = step_view(machine, reply).0;
            &&& next.tasks == machine.tasks
            &&& next.index == machine.index + 1 && next.phase == Phase::Ready || next.index
                == machine.index && steps_left(next.phase) < steps_left(machine.phase)
        }),
{
}

/// A call or a patch that failed ends the task then and there: the failure
/// is reported under the task's kind and name, and nothing is tried again.
pub proof fn failed_call_ends_the_task(task: TaskView, phase: Phase, failure: RemoteFailure)
    requires
        phase != Phase::Ready,
    ensures
        ({
            let (next, action) = progress_view(
                task,
                phase,
                Some(CallResultView::Failed(failure)),
            );
            &&& next == Phase::Ready
            &&& action matches ActionView::Report(report) && report.kind == task.kind()
                && report.name == task.name() && report.verdict is Failed
        }),
{
}

/// Everything that the machine asks for when the results handed in are the
/// given ones, one for each step.
pub open spec fn replay(machine: MachineView, replies: Seq<Option<CallResultView>>) -> Seq<
    ActionView,
>
    decreases replies.len(),
{
    if replies.len() == 0 {
        seq![]
    } else {
        seq![step_view(machine, replies[0]).1] + replay(
            step_view(machine, replies[0]).0,
            replies.drop_first(),
        )
    }
}

/// The tasks of a machine that have not ended, as a machine of their own.
pub open spec fn remainder(machine: MachineView) -> MachineView {
    MachineView {
        tasks: machine.tasks.subrange(machine.index as int, machine.tasks.len() as int),
        index: 0,
        phase: machine.phase,
    }
}

/// `whole` and `part` have the same tasks ahead of them and stand at the
/// same point of the current one; `whole` has `done` more behind it.
pub open spec fn same_ahead(whole: MachineView, part: MachineView, done: nat) -> bool {
    &&& done <= whole.tasks.len()
    &&& part.tasks == whole.tasks.subrange(done as int, whole.tasks.len() as int)
    &&& whole.index == part.index + done
    &&& whole.phase == part.phase
}

proof fn step_keeps_same_ahead(
    whole: MachineView,
    part: MachineView,
    done: nat,
    reply: Option<CallResultView>,
)
    requires
        same_ahead(whole, part, done),
    ensures
        step_view(whole, reply).1 == step_view(part, reply).1,
        same_ahead(step_view(whole, reply).0, step_view(part, reply).0, done),
{
    if !whole.finished() {
        assert(part.tasks[part.index as int] == whole.tasks[whole.index as int]);
    }
}

proof fn replay_same_ahead(
    whole: MachineView,
    part: MachineView,
    done: nat,
    replies: Seq<Option<CallResultView>>,
)
    requires
        same_ahead(whole, part, done),
    ensures
        replay(whole, replies) == replay(part, replies),
    decreases replies.len(),
{
    if replies.len() > 0 {
        step_keeps_same_ahead(whole, part, done, replies[0]);
        replay_same_ahead(
            step_view(whole, replies[0]).0,
            step_view(part, replies[0]).0,
            done,
            replies.drop_first(),
        );
    }
}

/// The members of a batch do not touch one another: from any point on, the
/// machine asks for exactly what it would ask for if the tasks that are
/// left were all there is. What became of the tasks before, failure or
/// success, has no part in it.
pub proof fn earlier_tasks_leave_no_trace(
    machine: MachineView,
    replies: Seq<Option<CallResultView>>,
)
    requires
        machine.index <= machine.tasks.len(),
    ensures
        replay(machine, replies) == replay(remainder(machine), replies),
{
    replay_same_ahead(machine, remainder(machine), machine.index, replies);
}

/// In a resync of two members, the first of which fails at its read, the
/// second is still worked off, and exactly as if it had come alone as an
/// upsert: the failure is reported, and what follows is the second member's
/// own run.
pub proof fn failed_member_does_not_stop_the_next(
    first: DeclaredView,
    second: DeclaredView,
    failure: RemoteFailure,
    replies: Seq<Option<CallResultView>>,
)
    requires
        first.name() is Some,
    ensures
        replay(
            start_view(ReconcileEventView::Resync(seq![first, second])),
            seq![None, Some(CallResultView::Failed(failure))] + replies,
        ) == seq![
            ActionView::Call(
                RemoteCallView::Get { kind: first.kind(), name: first.name()->0 },
            ),
            upsert_report(
                first,
                Verdict::Failed { operation: Operation::Get, cause: Cause::Remote(failure) },
            ),
        ] + replay(start_view(ReconcileEventView::Upsert(second)), replies),
{
    let batch = start_view(ReconcileEventView::Resync(seq![first, second]));
    let script = seq![None, Some(CallResultView::Failed(failure))] + replies;
    assert(batch.tasks.len() == 2);
    assert(batch.tasks[0] == TaskView::Upsert(first));
    assert(batch.tasks[1] == TaskView::Upsert(second));
    let after_read = step_view(batch, script[0]).0;
    let after_report = step_view(after_read, script[1]).0;
    assert(script.drop_first().drop_first() =~= replies);
    assert(script.drop_first()[0] == script[1]);
    reveal_with_fuel(replay, 3);
    assert(replay(batch, script) == seq![step_view(batch, script[0]).1] + (seq![
        step_view(after_read, script[1]).1,
    ] + replay(after_report, replies)));
    let alone = start_view(ReconcileEventView::Upsert(second));
    assert(alone.tasks =~= after_report.tasks.subrange(1, 2));
    replay_same_ahead(after_report, alone, 1, replies);
    assert(replay(batch, script) =~= seq![
        ActionView::Call(RemoteCallView::Get { kind: first.kind(), name: first.name()->0 }),
        upsert_report(
            first,
            Verdict::Failed { operation: Operation::Get, cause: Cause::Remote(failure) },
        ),
    ] + replay(alone, replies));
}

} // verus!
