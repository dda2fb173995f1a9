//! The reconciler: one event in, the corrective calls out.
//!
//! A [`Machine`] is made from one event and stepped until it says
//! `Finished`. Each step hands out one thing to do; the result of a call or a
//! patch is handed in with the next step. Nothing is remembered from one
//! event to the next: every upsert reads the stored record again before it
//! decides.

use crate::api::{
    change_for, change_view, record_for, record_view, RemoteCall, RemoteCallView,
};
use crate::reply::{CallResult, CallResultView, RemoteFailure};
use crate::resources::{
    copy_name, declared_views, name_view, DeclaredResource, DeclaredView, ResourceKind,
};
use crate::status::{mark_synced, mark_synced_view, StatusPatch, StatusPatchView};
use vstd::prelude::*;

verus! {

/// What the watch on the control plane reported, in the form in which it is
/// reconciled.
#[derive(Debug, PartialEq, Eq)]
pub enum ReconcileEvent {
    /// The resource was added or modified.
    Upsert(DeclaredResource),
    /// The resource of that kind and name was deleted.
    Delete(ResourceKind, String),
    /// The full list of the resources of a kind. It asserts every member and
    /// says nothing of what is missing from it: it deletes nothing.
    Resync(Vec<DeclaredResource>),
}

pub enum ReconcileEventView {
    Upsert(DeclaredView),
    Delete(ResourceKind, Seq<char>),
    Resync(Seq<DeclaredView>),
}

impl View for ReconcileEvent {
    type V = ReconcileEventView;

    open spec fn view(&self) -> ReconcileEventView {
        match self {
            ReconcileEvent::Upsert(d) => ReconcileEventView::Upsert(d@),
            ReconcileEvent::Delete(kind, name) => ReconcileEventView::Delete(*kind, name@),
            ReconcileEvent::Resync(list) => ReconcileEventView::Resync(declared_views(list@)),
        }
    }
}

/// One resource to bring in step: the unit in which an event is worked off.
#[derive(Debug, PartialEq, Eq)]
pub enum Task {
    Upsert(DeclaredResource),
    Delete { kind: ResourceKind, name: String },
}

pub enum TaskView {
    Upsert(DeclaredView),
    Delete { kind: ResourceKind, name: Seq<char> },
}

impl TaskView {
    pub open spec fn kind(self) -> ResourceKind {
        match self {
            TaskView::Upsert(d) => d.kind(),
            TaskView::Delete { kind, .. } => kind,
        }
    }

    pub open spec fn name(self) -> Option<Seq<char>> {
        match self {
            TaskView::Upsert(d) => d.name(),
            TaskView::Delete { name, .. } => Some(name),
        }
    }
}

impl View for Task {
    type V = TaskView;

    open spec fn view(&self) -> TaskView {
        match self {
            Task::Upsert(d) => TaskView::Upsert(d@),
            Task::Delete { kind, name } => TaskView::Delete { kind: *kind, name: name@ },
        }
    }
}

impl Task {
    pub fn kind(&self) -> (r: ResourceKind)
        ensures
            r == self@.kind(),
    {
        match self {
            Task::Upsert(d) => d.kind(),
            Task::Delete { kind, .. } => *kind,
        }
    }

    /// A copy of the name of the resource that the task is about, if it has
    /// one.
    pub fn name(&self) -> (r: Option<String>)
        ensures
            name_view(r) == self@.name(),
    {
        match self {
            Task::Upsert(d) => copy_name(d.name()),
            Task::Delete { name, .. } => Some(name.clone()),
        }
    }
}

/// The contents of a list of tasks, in order.
pub open spec fn task_views(tasks: Seq<Task>) -> Seq<TaskView> {
    tasks.map_values(|t: Task| t@)
}

/// One upsert for each member of a list, in the list's order.
pub open spec fn upsert_tasks(list: Seq<DeclaredView>) -> Seq<TaskView> {
    Seq::new(list.len(), |i: int| TaskView::Upsert(list[i]))
}

/// The tasks that an event is worked off as.
pub open spec fn tasks_view(event: ReconcileEventView) -> Seq<TaskView> {
    match event {
        ReconcileEventView::Upsert(d) => seq![TaskView::Upsert(d)],
        ReconcileEventView::Delete(kind, name) => seq![TaskView::Delete { kind, name }],
        ReconcileEventView::Resync(list) => upsert_tasks(list),
    }
}

/// Which of the two writes brought a record in step.
#[derive(Clone, Copy, Debug, PartialEq, Eq, Structural)]
pub enum Written {
    Created,
    Updated,
}

/// The step of the work that was attempted.
#[derive(Clone, Copy, Debug, PartialEq, Eq, Structural)]
pub enum Operation {
    /// Looking at the event itself, before any call.
    Validate,
    Get,
    Create,
    Update,
    Delete,
    MarkSynced,
}

/// Why a task failed.
#[derive(Clone, Copy, Debug, PartialEq, Eq, Structural)]
pub enum Cause {
    /// The resource has no name, so there is nothing to look up.
    NoName,
    /// The call or the patch failed.
    Remote(RemoteFailure),
    /// A result was handed in that the attempted step cannot have.
    Unexpected,
}

/// The classes into which failures fall.
#[derive(Clone, Copy, Debug, PartialEq, Eq, Structural)]
pub enum ErrorClass {
    /// The network failed or timed out. Nothing is tried again at once: the
    /// next resync brings the resource up again.
    Transport,
    /// An answer outside what the endpoint allows.
    Protocol,
    /// The event lacks what identifies the resource. Nothing is sent.
    MalformedInput,
    /// The watch could not be established. It ends the loop of its kind.
    FatalSubscription,
}

impl Cause {
    pub open spec fn class_view(self) -> ErrorClass {
        match self {
            Cause::NoName => ErrorClass::MalformedInput,
            Cause::Remote(RemoteFailure::Transport) => ErrorClass::Transport,
            Cause::Remote(_) => ErrorClass::Protocol,
            Cause::Unexpected => ErrorClass::Protocol,
        }
    }

    /// The class of failure that the cause falls into.
    pub fn class(self) -> (r: ErrorClass)
        ensures
            r == self.class_view(),
    {
        match self {
            Cause::NoName => ErrorClass::MalformedInput,
            Cause::Remote(RemoteFailure::Transport) => ErrorClass::Transport,
            Cause::Remote(_) => ErrorClass::Protocol,
            Cause::Unexpected => ErrorClass::Protocol,
        }
    }
}

/// What became of one task.
#[derive(Clone, Copy, Debug, PartialEq, Eq, Structural)]
pub enum Verdict {
    /// The stored record already had every desired field. Nothing was
    /// written.
    Unchanged,
    Created,
    Updated,
    /// The stored record is gone, whether this delete removed it or it was
    /// gone before.
    Deleted,
    Failed { operation: Operation, cause: Cause },
}

impl Verdict {
    /// Whether the task ended without a failure.
    pub open spec fn succeeded(self) -> bool {
        !(self is Failed)
    }

    /// Whether the task ended without a failure.
    pub fn is_success(self) -> (r: bool)
        ensures
            r == self.succeeded(),
    {
        match self {
            Verdict::Failed { .. } => false,
            _ => true,
        }
    }
}

impl Written {
    pub open spec fn verdict(self) -> Verdict {
        match self {
            Written::Created => Verdict::Created,
            Written::Updated => Verdict::Updated,
        }
    }

    pub open spec fn operation(self) -> Operation {
        match self {
            Written::Created => Operation::Create,
            Written::Updated => Operation::Update,
        }
    }
}

/// What became of one task, with the kind and name of its resource.
#[derive(Debug, PartialEq, Eq)]
pub struct Report {
    pub kind: ResourceKind,
    pub name: Option<String>,
    pub verdict: Verdict,
}

pub struct ReportView {
    pub kind: ResourceKind,
    pub name: Option<Seq<char>>,
    pub verdict: Verdict,
}

impl View for Report {
    type V = ReportView;

    open spec fn view(&self) -> ReportView {
        ReportView { kind: self.kind, name: name_view(self.name), verdict: self.verdict }
    }
}

/// What a step asks of the caller.
#[derive(Debug, PartialEq, Eq)]
pub enum Action {
    /// Make this call on the authorization service and hand in its result.
    Call(RemoteCall),
    /// Send this patch to the control plane and hand in its result: `Done`,
    /// or `Failed`.
    MarkSynced(StatusPatch),
    /// A task has ended: log this. Nothing is to be handed in.
    Report(Report),
    /// The event is worked off.
    Finished,
}

pub enum ActionView {
    Call(RemoteCallView),
    MarkSynced(StatusPatchView),
    Report(ReportView),
    Finished,
}

impl ActionView {
    /// Whether the action changes what the authorization service stores.
    pub open spec fn is_write(self) -> bool {
        self matches ActionView::Call(call) && call.is_write()
    }
}

impl View for Action {
    type V = ActionView;

    open spec fn view(&self) -> ActionView {
        match self {
            Action::Call(call) => ActionView::Call(call@),
            Action::MarkSynced(patch) => ActionView::MarkSynced(patch@),
            Action::Report(report) => ActionView::Report(report@),
            Action::Finished => ActionView::Finished,
        }
    }
}

/// Where the work on the current task stands.
#[derive(Clone, Copy, Debug, PartialEq, Eq, Structural)]
pub enum Phase {
    /// Nothing is under way: the current task has not been begun.
    Ready,
    AwaitGet,
    AwaitCreate,
    AwaitUpdate,
    /// The write took effect and the status patch is under way.
    AwaitStatus(Written),
    AwaitDelete,
}

/// The contents of a result that may have been handed in.
pub open spec fn reply_view(reply: Option<CallResult>) -> Option<CallResultView> {
    match reply {
        Some(result) => Some(result@),
        None => None,
    }
}

/// The end of a task: the phase goes back to `Ready`, and the verdict is
/// reported under the task's kind and name.
pub open spec fn finish_view(task: TaskView, verdict: Verdict) -> (Phase, ActionView) {
    (
        Phase::Ready,
        ActionView::Report(ReportView { kind: task.kind(), name: task.name(), verdict }),
    )
}

/// The end of a task whose phase does not belong to it.
pub open spec fn stray_view(task: TaskView) -> (Phase, ActionView) {
    finish_view(
        task,
        Verdict::Failed { operation: Operation::Validate, cause: Cause::Unexpected },
    )
}

/// How a task begins. An upsert reads the stored record; one without a name
/// is refused before any call. A delete goes straight to its call.
pub open spec fn begin_view(task: TaskView) -> (Phase, ActionView) {
    match task {
        TaskView::Upsert(d) => match d.name() {
            Some(name) => (
                Phase::AwaitGet,
                ActionView::Call(RemoteCallView::Get { kind: d.kind(), name }),
            ),
            None => finish_view(
                task,
                Verdict::Failed { operation: Operation::Validate, cause: Cause::NoName },
            ),
        },
        TaskView::Delete { kind, name } => (
            Phase::AwaitDelete,
            ActionView::Call(RemoteCallView::Delete { kind, name }),
        ),
    }
}

/// What follows the read of an upsert: no record, create it; a record with
/// every desired field, nothing; a record that differs, update it with all
/// desired fields.
pub open spec fn after_get_view(
    task: TaskView,
    declared: DeclaredView,
    name: Seq<char>,
    result: CallResultView,
) -> (Phase, ActionView) {
    match result {
        CallResultView::Found(record) => if record.kind() != declared.kind() {
            finish_view(
                task,
                Verdict::Failed { operation: Operation::Get, cause: Cause::Unexpected },
            )
        } else if record.matches(declared) {
            finish_view(task, Verdict::Unchanged)
        } else {
            (
                Phase::AwaitUpdate,
                ActionView::Call(RemoteCallView::Update { name, change: change_view(declared) }),
            )
        },
        CallResultView::NotFound => (
            Phase::AwaitCreate,
            ActionView::Call(RemoteCallView::Create(record_view(name, declared))),
        ),
        CallResultView::Done => finish_view(
            task,
            Verdict::Failed { operation: Operation::Get, cause: Cause::Unexpected },
        ),
        CallResultView::Failed(failure) => finish_view(
            task,
            Verdict::Failed { operation: Operation::Get, cause: Cause::Remote(failure) },
        ),
    }
}

/// What follows a create or an update: on success the status is marked,
/// where the kind carries one, and else the task ends.
pub open spec fn after_write_view(
    task: TaskView,
    written: Written,
    name: Seq<char>,
    result: CallResultView,
) -> (Phase, ActionView) {
    match result {
        CallResultView::Done => match mark_synced_view(task.kind(), name) {
            Some(patch) => (Phase::AwaitStatus(written), ActionView::MarkSynced(patch)),
            None => finish_view(task, written.verdict()),
        },
        CallResultView::Failed(failure) => finish_view(
            task,
            Verdict::Failed { operation: written.operation(), cause: Cause::Remote(failure) },
        ),
        _ => finish_view(
            task,
            Verdict::Failed { operation: written.operation(), cause: Cause::Unexpected },
        ),
    }
}

/// What follows the status patch: the task ends either way. A patch that
/// failed is reported and not sent again.
pub open spec fn after_status_view(task: TaskView, written: Written, result: CallResultView) -> (
    Phase,
    ActionView,
) {
    match result {
        CallResultView::Done => finish_view(task, written.verdict()),
        CallResultView::Failed(failure) => finish_view(
            task,
            Verdict::Failed { operation: Operation::MarkSynced, cause: Cause::Remote(failure) },
        ),
        _ => finish_view(
            task,
            Verdict::Failed { operation: Operation::MarkSynced, cause: Cause::Unexpected },
        ),
    }
}

/// What follows a delete: a record that was not there is as good as one
/// that was removed.
pub open spec fn after_delete_view(task: TaskView, result: CallResultView) -> (
    Phase,
    ActionView,
) {
    match result {
        CallResultView::Done => finish_view(task, Verdict::Deleted),
        CallResultView::NotFound => finish_view(task, Verdict::Deleted),
        CallResultView::Failed(failure) => finish_view(
            task,
            Verdict::Failed { operation: Operation::Delete, cause: Cause::Remote(failure) },
        ),
        CallResultView::Found(_) => finish_view(
            task,
            Verdict::Failed { operation: Operation::Delete, cause: Cause::Unexpected },
        ),
    }
}

/// The result that is worked with: where a result was due and none was
/// handed in, the call counts as not made.
pub open spec fn due_view(reply: Option<CallResultView>) -> CallResultView {
    match reply {
        Some(result) => result,
        None => CallResultView::Failed(RemoteFailure::Transport),
    }
}

/// One step of the work on one task: the next phase and what to do. The
/// phase `Ready` in the result says that the task has ended. In the phase
/// `Ready` nothing is due, and what was handed in is not looked at.
pub open spec fn progress_view(task: TaskView, phase: Phase, reply: Option<CallResultView>) -> (
    Phase,
    ActionView,
) {
    match phase {
        Phase::Ready => begin_view(task),
        Phase::AwaitGet => match task {
            TaskView::Upsert(declared) => match declared.name() {
                Some(name) => after_get_view(task, declared, name, due_view(reply)),
                None => stray_view(task),
            },
            _ => stray_view(task),
        },
        Phase::AwaitCreate => match task.name() {
            Some(name) => after_write_view(task, Written::Created, name, due_view(reply)),
            None => stray_view(task),
        },
        Phase::AwaitUpdate => match task.name() {
            Some(name) => after_write_view(task, Written::Updated, name, due_view(reply)),
            None => stray_view(task),
        },
        Phase::AwaitStatus(written) => after_status_view(task, written, due_view(reply)),
        Phase::AwaitDelete => after_delete_view(task, due_view(reply)),
    }
}

/// The end of a task.
fn finish(task: &Task, verdict: Verdict) -> (r: (Phase, Action))
    ensures
        (r.0, r.1@) == finish_view(task@, verdict),
{
    (Phase::Ready, Action::Report(Report { kind: task.kind(), name: task.name(), verdict }))
}

/// The end of a task whose phase does not belong to it.
fn stray(task: &Task) -> (r: (Phase, Action))
    ensures
        (r.0, r.1@) == stray_view(task@),
{
    finish(task, Verdict::Failed { operation: Operation::Validate, cause: Cause::Unexpected })
}

/// How a task begins.
fn begin(task: &Task) -> (r: (Phase, Action))
    ensures
        (r.0, r.1@) == begin_view(task@),
{
    match task {
        Task::Upsert(d) => match d.name() {
            Some(name) => (
                Phase::AwaitGet,
                Action::Call(RemoteCall::Get { kind: d.kind(), name: name.clone() }),
            ),
            None => finish(
                task,
                Verdict::Failed { operation: Operation::Validate, cause: Cause::NoName },
            ),
        },
        Task::Delete { kind, name } => (
            Phase::AwaitDelete,
            Action::Call(RemoteCall::Delete { kind: *kind, name: name.clone() }),
        ),
    }
}

/// What follows the read of an upsert.
fn after_get(task: &Task, declared: &DeclaredResource, name: &String, result: CallResult) -> (r: (
    Phase,
    Action,
))
    ensures
        (r.0, r.1@) == after_get_view(task@, declared@, name@, result@),
{
    match result {
        CallResult::Found(record) => {
            if record.kind() != declared.kind() {
                finish(
                    task,
                    Verdict::Failed { operation: Operation::Get, cause: Cause::Unexpected },
                )
            } else if record.matches(declared) {
                finish(task, Verdict::Unchanged)
            } else {
                (
                    Phase::AwaitUpdate,
                    Action::Call(
                        RemoteCall::Update { name: name.clone(), change: change_for(declared) },
                    ),
                )
            }
        },
        CallResult::NotFound => (
            Phase::AwaitCreate,
            Action::Call(RemoteCall::Create(record_for(name.as_str(), declared))),
        ),
        CallResult::Done => finish(
            task,
            Verdict::Failed { operation: Operation::Get, cause: Cause::Unexpected },
        ),
        CallResult::Failed(failure) => finish(
            task,
            Verdict::Failed { operation: Operation::Get, cause: Cause::Remote(failure) },
        ),
    }
}

/// What follows a create or an update.
fn after_write(task: &Task, written: Written, name: &String, result: CallResult) -> (r: (
    Phase,
    Action,
))
    ensures
        (r.0, r.1@) == after_write_view(task@, written, name@, result@),
{
    let operation = match written {
        Written::Created => Operation::Create,
        Written::Updated => Operation::Update,
    };
    match result {
        CallResult::Done => match mark_synced(task.kind(), name.as_str()) {
            Some(patch) => (Phase::AwaitStatus(written), Action::MarkSynced(patch)),
            None => finish(
                task,
                match written {
                    Written::Created => Verdict::Created,
                    Written::Updated => Verdict::Updated,
                },
            ),
        },
        CallResult::Failed(failure) => finish(
            task,
            Verdict::Failed { operation, cause: Cause::Remote(failure) },
        ),
        _ => finish(task, Verdict::Failed { operation, cause: Cause::Unexpected }),
    }
}

/// What follows the status patch.
fn after_status(task: &Task, written: Written, result: CallResult) -> (r: (Phase, Action))
    ensures
        (r.0, r.1@) == after_status_view(task@, written, result@),
{
    match result {
        CallResult::Done => finish(
            task,
            match written {
                Written::Created => Verdict::Created,
                Written::Updated => Verdict::Updated,
            },
        ),
        CallResult::Failed(failure) => finish(
            task,
            Verdict::Failed { operation: Operation::MarkSynced, cause: Cause::Remote(failure) },
        ),
        _ => finish(
            task,
            Verdict::Failed { operation: Operation::MarkSynced, cause: Cause::Unexpected },
        ),
    }
}

/// What follows a delete.
fn after_delete(task: &Task, result: CallResult) -> (r: (Phase, Action))
    ensures
        (r.0, r.1@) == after_delete_view(task@, result@),
{
    match result {
        CallResult::Done => finish(task, Verdict::Deleted),
        CallResult::NotFound => finish(task, Verdict::Deleted),
        CallResult::Failed(failure) => finish(
            task,
            Verdict::Failed { operation: Operation::Delete, cause: Cause::Remote(failure) },
        ),
        CallResult::Found(_) => finish(
            task,
            Verdict::Failed { operation: Operation::Delete, cause: Cause::Unexpected },
        ),
    }
}

/// The result that is worked with.
fn due(reply: Option<CallResult>) -> (r: CallResult)
    ensures
        r@ == due_view(reply_view(reply)),
{
    match reply {
        Some(result) => result,
        None => CallResult::Failed(RemoteFailure::Transport),
    }
}

/// One step of the work on one task: the next phase and what to do.
pub fn progress(task: &Task, phase: Phase, reply: Option<CallResult>) -> (r: (Phase, Action))
    ensures
        (r.0, r.1@) == progress_view(task@, phase, reply_view(reply)),
{
    match phase {
        Phase::Ready => begin(task),
        Phase::AwaitGet => match task {
            Task::Upsert(declared) => match declared.name() {
                Some(name) => after_get(task, declared, name, due(reply)),
                None => stray(task),
            },
            _ => stray(task),
        },
        Phase::AwaitCreate => match task.name() {
            Some(name) => after_write(task, Written::Created, &name, due(reply)),
            None => stray(task),
        },
        Phase::AwaitUpdate => match task.name() {
            Some(name) => after_write(task, Written::Updated, &name, due(reply)),
            None => stray(task),
        },
        Phase::AwaitStatus(written) => after_status(task, written, due(reply)),
        Phase::AwaitDelete => after_delete(task, due(reply)),
    }
}

/// The work on one event: its tasks, which of them is the current one, and
/// where the work on that one stands.
#[derive(Debug)]
pub struct Machine {
    tasks: Vec<Task>,
    index: usize,
    phase: Phase,
}

pub struct MachineView {
    pub tasks: Seq<TaskView>,
    /// How many tasks have ended.
    pub index: nat,
    pub phase: Phase,
}

impl MachineView {
    /// Whether every task has ended.
    pub open spec fn finished(self) -> bool {
        self.index >= self.tasks.len()
    }
}

impl View for Machine {
    type V = MachineView;

    closed spec fn view(&self) -> MachineView {
        MachineView {
            tasks: task_views(self.tasks@),
            index: self.index as nat,
            phase: self.phase,
        }
    }
}

/// The machine as it stands before the first step on an event.
pub open spec fn start_view(event: ReconcileEventView) -> MachineView {
    MachineView { tasks: tasks_view(event), index: 0, phase: Phase::Ready }
}

/// One step of the work on an event. While tasks are left, the current one
/// takes its step, and where that ends it the next one becomes current.
/// Once none is left the step says `Finished` and changes nothing.
pub open spec fn step_view(machine: MachineView, reply: Option<CallResultView>) -> (
    MachineView,
    ActionView,
) {
    if machine.finished() {
        (machine, ActionView::Finished)
    } else {
        let (phase, action) = progress_view(
            machine.tasks[machine.index as int],
            machine.phase,
            reply,
        );
        (
            MachineView {
                tasks: machine.tasks,
                index: if phase == Phase::Ready {
                    machine.index + 1
                } else {
                    machine.index
                },
                phase,
            },
            action,
        )
    }
}

impl Machine {
    /// The machine that works off `event`, before its first step.
    pub fn new(event: ReconcileEvent) -> (r: Machine)
        ensures
            r@ == start_view(event@),
    {
        let mut tasks: Vec<Task> = Vec::new();
        match event {
            ReconcileEvent::Upsert(d) => {
                tasks.push(Task::Upsert(d));
            },
            ReconcileEvent::Delete(kind, name) => {
                tasks.push(Task::Delete { kind, name });
            },
            ReconcileEvent::Resync(list) => {
                let mut i: usize = 0;
                while i < list.len()
                    invariant
                        i <= list.len(),
                        tasks.len() == i,
                        forall|j: int|
                            0 <= j < i ==> (#[trigger] tasks@[j])@ == TaskView::Upsert(list@[j]@),
                    decreases list.len() - i,
                {
                    tasks.push(Task::Upsert(list[i].clone()));
                    i = i + 1;
                }
            },
        }
        let machine = Machine { tasks, index: 0, phase: Phase::Ready };
        assert(machine@.tasks =~= tasks_view(event@));
        machine
    }

    /// Whether every task has ended.
    pub fn is_finished(&self) -> (r: bool)
        ensures
            r == self@.finished(),
    {
        self.index >= self.tasks.len()
    }

    /// How many tasks the event is worked off as.
    pub fn len(&self) -> (r: usize)
        ensures
            r == self@.tasks.len(),
    {
        self.tasks.len()
    }

    /// How many tasks have ended.
    pub fn completed(&self) -> (r: usize)
        ensures
            r == self@.index,
    {
        self.index
    }

    /// Where the work on the current task stands.
    pub fn phase(&self) -> (r: Phase)
        ensures
            r == self@.phase,
    {
        self.phase
    }

    /// Takes one step. `reply` is the result of what the step before asked
    /// for, where that was a call or a patch, and `None` else.
    pub fn step(&mut self, reply: Option<CallResult>) -> (action: Action)
        ensures
            (final(self)@, action@) == step_view(old(self)@, reply_view(reply)),
    {
        if self.index >= self.tasks.len() {
            return Action::Finished;
        }
        let (phase, action) = progress(&self.tasks[self.index], self.phase, reply);
        self.phase = phase;
        match phase {
            Phase::Ready => {
                self.index = self.index + 1;
            },
            _ => {},
        }
        action
    }
}

} // verus!
