//! The supervisor: one loop for each kind of resource, each on its own.
//!
//! A loop subscribes to the watch of its kind, has every event reconciled,
//! and subscribes again when the stream ends. A subscription that cannot be
//! had ends the loop for good, and only that loop: the loops share no state,
//! so what happens to one cannot reach the other. The process is over once
//! every loop is.
//!
//! Between one subscription and the next the loop waits. The wait doubles
//! with each stream that ended without an event, from the policy's first
//! wait up to its longest, and starts over once an event has come.
//!
//! While a stream is up, an attempt of the watch to come back may fail. The
//! policy says how many such failures in a row are borne; the next one is
//! the fatal subscription error.

use crate::reconciler::{ErrorClass, ReconcileEvent, ReconcileEventView, Report, ReportView};
use crate::resources::{declared_views, DeclaredResource, DeclaredView, ResourceKind};
use crate::watch::{intake_view, Collector, Intake, IntakeView, WatchEvent, WatchEventView};
use vstd::prelude::*;

verus! {

/// How long to wait before subscribing again.
#[derive(Clone, Copy, Debug, PartialEq, Eq, Structural)]
pub struct Backoff {
    /// The wait after the first stream that ended, in seconds.
    pub initial_secs: u64,
    /// The longest wait, in seconds.
    pub max_secs: u64,
}

impl Backoff {
    /// The wait before subscription number `attempt`, counted from zero: the
    /// first wait, doubled `attempt` times, and never more than the longest.
    pub open spec fn delay_view(self, attempt: nat) -> nat
        decreases attempt,
    {
        if attempt == 0 {
            if self.initial_secs <= self.max_secs {
                self.initial_secs as nat
            } else {
                self.max_secs as nat
            }
        } else {
            let before = self.delay_view((attempt - 1) as nat);
            if 2 * before <= self.max_secs {
                2 * before
            } else {
                self.max_secs as nat
            }
        }
    }

    /// No wait is longer than the longest.
    pub proof fn delay_is_bounded(self, attempt: nat)
        ensures
            self.delay_view(attempt) <= self.max_secs,
        decreases attempt,
    {
        if attempt > 0 {
            self.delay_is_bounded((attempt - 1) as nat);
        }
    }

    /// The wait never shrinks from one attempt to the next.
    pub proof fn delay_grows(self, attempt: nat)
        ensures
            self.delay_view(attempt) <= self.delay_view(attempt + 1),
    {
        self.delay_is_bounded(attempt);
        assert(self.delay_view(attempt + 1) == if 2 * self.delay_view(attempt) <= self.max_secs {
            2 * self.delay_view(attempt)
        } else {
            self.max_secs as nat
        });
    }

    /// Once the wait is zero or the longest, it stays there.
    proof fn delay_settles(self, from: nat, to: nat)
        requires
            from <= to,
            self.delay_view(from) == 0 || self.delay_view(from) == self.max_secs,
        ensures
            self.delay_view(to) == self.delay_view(from),
        decreases to,
    {
        if from < to {
            self.delay_settles(from, (to - 1) as nat);
        }
    }

    /// The wait before subscription number `attempt`, counted from zero.
    pub fn delay(&self, attempt: u32) -> (r: u64)
        ensures
            r == self.delay_view(attempt as nat),
    {
        let mut wait: u64 = if self.initial_secs <= self.max_secs {
            self.initial_secs
        } else {
            self.max_secs
        };
        let mut i: u32 = 0;
        while i < attempt && 0 < wait && wait < self.max_secs
            invariant
                i <= attempt,
                wait == self.delay_view(i as nat),
                wait <= self.max_secs,
            decreases attempt - i,
        {
            wait = if wait <= self.max_secs - wait {
                2 * wait
            } else {
                self.max_secs
            };
            i = i + 1;
        }
        proof {
            if i < attempt {
                self.delay_settles(i as nat, attempt as nat);
            }
        }
        wait
    }
}

/// How a loop treats a watch that falters.
#[derive(Clone, Copy, Debug, PartialEq, Eq, Structural)]
pub struct Policy {
    /// The waits between subscriptions.
    pub backoff: Backoff,
    /// How many failures of the watch in a row, without an event between
    /// them, are borne.
    pub max_retries: u32,
    /// After how many seconds the full list of resources is reconciled
    /// anew, whatever the watch has reported.
    pub resync_secs: u64,
}

/// Where a loop stands.
#[derive(Clone, Copy, Debug, PartialEq, Eq, Structural)]
pub enum LoopState {
    /// The loop is at work. `attempt` counts the streams that have ended
    /// since the last event, `errors` the failures of the watch since then.
    Running { attempt: u32, errors: u32 },
    /// The watch could not be established. The loop has ended for good.
    Failed,
    /// The loop was told to shut down and has ended.
    Stopped,
}

impl LoopState {
    /// Whether the loop has ended.
    pub open spec fn ended(self) -> bool {
        !(self is Running)
    }
}

/// What happened to a loop.
#[derive(Debug, PartialEq, Eq)]
pub enum LoopInput {
    /// The loop is being started.
    Start,
    /// The subscription was established.
    Subscribed,
    /// The subscription could not be established.
    SubscribeFailed,
    /// The stream yielded an event.
    Event(WatchEvent),
    /// The time for a full resync has come: these are all the resources of
    /// the kind that are known.
    ResyncDue(Vec<DeclaredResource>),
    /// The stream ended without an error.
    StreamEnded,
    /// The stream reported that an attempt to bring the watch back failed.
    StreamError,
    /// The stream ended with an error: the watch could not be had again.
    StreamFailed,
    /// The process is shutting down.
    Shutdown,
}

pub enum LoopInputView {
    Start,
    Subscribed,
    SubscribeFailed,
    Event(WatchEventView),
    ResyncDue(Seq<DeclaredView>),
    StreamEnded,
    StreamError,
    StreamFailed,
    Shutdown,
}

impl View for LoopInput {
    type V = LoopInputView;

    open spec fn view(&self) -> LoopInputView {
        match self {
            LoopInput::Start => LoopInputView::Start,
            LoopInput::Subscribed => LoopInputView::Subscribed,
            LoopInput::SubscribeFailed => LoopInputView::SubscribeFailed,
            LoopInput::Event(e) => LoopInputView::Event(e@),
            LoopInput::ResyncDue(list) => LoopInputView::ResyncDue(declared_views(list@)),
            LoopInput::StreamEnded => LoopInputView::StreamEnded,
            LoopInput::StreamError => LoopInputView::StreamError,
            LoopInput::StreamFailed => LoopInputView::StreamFailed,
            LoopInput::Shutdown => LoopInputView::Shutdown,
        }
    }
}

/// What a loop is to do next.
#[derive(Debug, PartialEq, Eq)]
pub enum LoopAction {
    /// Wait that many seconds, then subscribe, and say how it went.
    Subscribe { after_secs: u64 },
    /// Take the next item from the stream.
    Poll,
    /// Reconcile this event, then take the next item from the stream.
    Reconcile(ReconcileEvent),
    /// Log this dropped event, then take the next item from the stream.
    Reject(Report),
    /// Log the fatal subscription error and end the loop.
    Fail,
    /// End the loop.
    Stop,
}

pub enum LoopActionView {
    Subscribe { after_secs: u64 },
    Poll,
    Reconcile(ReconcileEventView),
    Reject(ReportView),
    Fail,
    Stop,
}

impl View for LoopAction {
    type V = LoopActionView;

    open spec fn view(&self) -> LoopActionView {
        match self {
            LoopAction::Subscribe { after_secs } => LoopActionView::Subscribe {
                after_secs: *after_secs,
            },
            LoopAction::Poll => LoopActionView::Poll,
            LoopAction::Reconcile(e) => LoopActionView::Reconcile(e@),
            LoopAction::Reject(r) => LoopActionView::Reject(r@),
            LoopAction::Fail => LoopActionView::Fail,
            LoopAction::Stop => LoopActionView::Stop,
        }
    }
}

/// The loop of one kind.
#[derive(Debug)]
pub struct KindLoop {
    kind: ResourceKind,
    policy: Policy,
    state: LoopState,
    collector: Collector,
}

pub struct KindLoopView {
    pub kind: ResourceKind,
    pub policy: Policy,
    pub state: LoopState,
    /// The listing that the watch has yielded so far.
    pub listed: Seq<DeclaredView>,
}

impl View for KindLoop {
    type V = KindLoopView;

    closed spec fn view(&self) -> KindLoopView {
        KindLoopView {
            kind: self.kind,
            policy: self.policy,
            state: self.state,
            listed: self.collector@,
        }
    }
}

/// What is to be done with what the collector made of an event.
pub open spec fn deliver_view(intake: IntakeView) -> LoopActionView {
    match intake {
        IntakeView::Event(event) => LoopActionView::Reconcile(event),
        IntakeView::Nothing => LoopActionView::Poll,
        IntakeView::Rejected(report) => LoopActionView::Reject(report),
    }
}

/// One more stream that ended without an event.
pub open spec fn next_attempt(attempt: u32) -> u32 {
    if attempt < u32::MAX {
        (attempt + 1) as u32
    } else {
        attempt
    }
}

/// The loop after an input, and what it is to do next.
///
/// - A loop that has ended stays as it is and says again how it ended.
/// - Shutdown stops a running loop.
/// - A subscription or a stream that failed ends the loop for good.
/// - A failure of the watch to come back is borne and the stream is polled
///   again, as long as the policy allows; beyond that it ends the loop for
///   good.
/// - A stream that ended is subscribed to again, after the wait for the
///   attempt.
/// - An event is handed to the collector, and what comes of it is
///   delivered.
/// - When a full resync is due, everything that is known is reconciled as
///   one resync.
pub open spec fn handle_view(kind_loop: KindLoopView, input: LoopInputView) -> (
    KindLoopView,
    LoopActionView,
) {
    match kind_loop.state {
        LoopState::Failed => (kind_loop, LoopActionView::Fail),
        LoopState::Stopped => (kind_loop, LoopActionView::Stop),
        LoopState::Running { attempt, errors } => match input {
            LoopInputView::Start => (kind_loop, LoopActionView::Subscribe { after_secs: 0 }),
            LoopInputView::Subscribed => (kind_loop, LoopActionView::Poll),
            LoopInputView::SubscribeFailed => (
                KindLoopView { state: LoopState::Failed, ..kind_loop },
                LoopActionView::Fail,
            ),
            LoopInputView::StreamFailed => (
                KindLoopView { state: LoopState::Failed, ..kind_loop },
                LoopActionView::Fail,
            ),
            LoopInputView::StreamError => if errors < kind_loop.policy.max_retries {
                (
                    KindLoopView {
                        state: LoopState::Running { attempt, errors: (errors + 1) as u32 },
                        ..kind_loop
                    },
                    LoopActionView::Poll,
                )
            } else {
                (KindLoopView { state: LoopState::Failed, ..kind_loop }, LoopActionView::Fail)
            },
            LoopInputView::StreamEnded => (
                KindLoopView {
                    state: LoopState::Running { attempt: next_attempt(attempt), errors },
                    ..kind_loop
                },
                LoopActionView::Subscribe {
                    after_secs: kind_loop.policy.backoff.delay_view(attempt as nat) as u64,
                },
            ),
            LoopInputView::Event(event) => (
                KindLoopView {
                    state: LoopState::Running { attempt: 0, errors: 0 },
                    listed: intake_view(kind_loop.listed, event).0,
                    ..kind_loop
                },
                deliver_view(intake_view(kind_loop.listed, event).1),
            ),
            LoopInputView::ResyncDue(list) => (
                kind_loop,
                LoopActionView::Reconcile(ReconcileEventView::Resync(list)),
            ),
            LoopInputView::Shutdown => (
                KindLoopView { state: LoopState::Stopped, ..kind_loop },
                LoopActionView::Stop,
            ),
        },
    }
}

impl KindLoop {
    /// The loop of `kind`, not yet started.
    pub fn new(kind: ResourceKind, policy: Policy) -> (r: KindLoop)
        ensures
            r@ == (KindLoopView {
                kind,
                policy,
                state: LoopState::Running { attempt: 0, errors: 0 },
                listed: Seq::empty(),
            }),
    {
        KindLoop {
            kind,
            policy,
            state: LoopState::Running { attempt: 0, errors: 0 },
            collector: Collector::new(),
        }
    }

    pub fn kind(&self) -> (r: ResourceKind)
        ensures
            r == self@.kind,
    {
        self.kind
    }

    pub fn state(&self) -> (r: LoopState)
        ensures
            r == self@.state,
    {
        self.state
    }

    /// The class of the failure that ended the loop, if one did.
    pub fn failure(&self) -> (r: Option<ErrorClass>)
        ensures
            r == if self@.state is Failed {
                Some(ErrorClass::FatalSubscription)
            } else {
                None
            },
    {
        match self.state {
            LoopState::Failed => Some(ErrorClass::FatalSubscription),
            _ => None,
        }
    }

    /// Takes what happened to the loop and says what it is to do next.
    pub fn handle(&mut self, input: LoopInput) -> (action: LoopAction)
        ensures
            (final(self)@, action@) == handle_view(old(self)@, input@),
    {
        match self.state {
            LoopState::Failed => LoopAction::Fail,
            LoopState::Stopped => LoopAction::Stop,
            LoopState::Running { attempt, errors } => match input {
                LoopInput::Start => LoopAction::Subscribe { after_secs: 0 },
                LoopInput::Subscribed => LoopAction::Poll,
                LoopInput::SubscribeFailed => {
                    self.state = LoopState::Failed;
                    LoopAction::Fail
                },
                LoopInput::StreamFailed => {
                    self.state = LoopState::Failed;
                    LoopAction::Fail
                },
                LoopInput::StreamError => {
                    if errors < self.policy.max_retries {
                        self.state = LoopState::Running { attempt, errors: errors + 1 };
                        LoopAction::Poll
                    } else {
                        self.state = LoopState::Failed;
                        LoopAction::Fail
                    }
                },
                LoopInput::StreamEnded => {
                    let after_secs = self.policy.backoff.delay(attempt);
                    let next = if attempt < u32::MAX {
                        attempt + 1
                    } else {
                        attempt
                    };
                    self.state = LoopState::Running { attempt: next, errors };
                    LoopAction::Subscribe { after_secs }
                },
                LoopInput::Event(event) => {
                    self.state = LoopState::Running { attempt: 0, errors: 0 };
                    match self.collector.accept(event) {
                        Intake::Event(e) => LoopAction::Reconcile(e),
                        Intake::Nothing => LoopAction::Poll,
                        Intake::Rejected(report) => LoopAction::Reject(report),
                    }
                },
                LoopInput::ResyncDue(list) => LoopAction::Reconcile(ReconcileEvent::Resync(list)),
                LoopInput::Shutdown => {
                    self.state = LoopState::Stopped;
                    LoopAction::Stop
                },
            },
        }
    }
}

/// The loops of the two kinds, side by side.
#[derive(Debug)]
pub struct Supervisor {
    client: KindLoop,
    user_seed: KindLoop,
}

pub struct SupervisorView {
    pub client: KindLoopView,
    pub user_seed: KindLoopView,
}

impl SupervisorView {
    /// The loop of a kind.
    pub open spec fn of(self, kind: ResourceKind) -> KindLoopView {
        match kind {
            ResourceKind::Client => self.client,
            ResourceKind::UserSeed => self.user_seed,
        }
    }

    /// Whether every loop has ended, and with it the process.
    pub open spec fn ended(self) -> bool {
        self.client.state.ended() && self.user_seed.state.ended()
    }

    /// The code with which the process exits, once every loop has ended:
    /// 1 where every loop has failed, 0 where one was stopped.
    pub open spec fn exit_code(self) -> Option<u8> {
        if !self.ended() {
            None
        } else if self.client.state is Failed && self.user_seed.state is Failed {
            Some(1u8)
        } else {
            Some(0u8)
        }
    }
}

impl View for Supervisor {
    type V = SupervisorView;

    closed spec fn view(&self) -> SupervisorView {
        SupervisorView { client: self.client@, user_seed: self.user_seed@ }
    }
}

/// The supervisor after an input to the loop of one kind, and what that
/// loop is to do next. The loop of the other kind is as it was.
pub open spec fn supervise_view(
    supervisor: SupervisorView,
    kind: ResourceKind,
    input: LoopInputView,
) -> (SupervisorView, LoopActionView) {
    match kind {
        ResourceKind::Client => (
            SupervisorView { client: handle_view(supervisor.client, input).0, ..supervisor },
            handle_view(supervisor.client, input).1,
        ),
        ResourceKind::UserSeed => (
            SupervisorView {
                user_seed: handle_view(supervisor.user_seed, input).0,
                ..supervisor
            },
            handle_view(supervisor.user_seed, input).1,
        ),
    }
}

impl Supervisor {
    /// A supervisor whose two loops have not been started.
    pub fn new(policy: Policy) -> (r: Supervisor)
        ensures
            r@.client == (KindLoopView {
                kind: ResourceKind::Client,
                policy,
                state: LoopState::Running { attempt: 0, errors: 0 },
                listed: Seq::empty(),
            }),
            r@.user_seed == (KindLoopView {
                kind: ResourceKind::UserSeed,
                policy,
                state: LoopState::Running { attempt: 0, errors: 0 },
                listed: Seq::empty(),
            }),
    {
        Supervisor {
            client: KindLoop::new(ResourceKind::Client, policy),
            user_seed: KindLoop::new(ResourceKind::UserSeed, policy),
        }
    }

    /// The supervisor of two loops that were run apart from one another.
    pub fn of(client: KindLoop, user_seed: KindLoop) -> (r: Supervisor)
        ensures
            r@ == (SupervisorView { client: client@, user_seed: user_seed@ }),
    {
        Supervisor { client, user_seed }
    }

    /// Where the loop of a kind stands.
    pub fn state(&self, kind: ResourceKind) -> (r: LoopState)
        ensures
            r == self@.of(kind).state,
    {
        match kind {
            ResourceKind::Client => self.client.state(),
            ResourceKind::UserSeed => self.user_seed.state(),
        }
    }

    /// Takes what happened to the loop of `kind` and says what that loop is
    /// to do next.
    pub fn handle(&mut self, kind: ResourceKind, input: LoopInput) -> (action: LoopAction)
        ensures
            (final(self)@, action@) == supervise_view(old(self)@, kind, input@),
    {
        match kind {
            ResourceKind::Client => self.client.handle(input),
            ResourceKind::UserSeed => self.user_seed.handle(input),
        }
    }

    /// The code with which the process is to exit, once every loop has
    /// ended; none while one is running.
    pub fn exit_code(&self) -> (r: Option<u8>)
        ensures
            r == self@.exit_code(),
    {
        match (self.client.state(), self.user_seed.state()) {
            (LoopState::Running { .. }, _) => None,
            (_, LoopState::Running { .. }) => None,
            (LoopState::Failed, LoopState::Failed) => Some(1),
            _ => Some(0),
        }
    }
}

/// The other of the two kinds.
pub open spec fn other_kind(kind: ResourceKind) -> ResourceKind {
    match kind {
        ResourceKind::Client => ResourceKind::UserSeed,
        ResourceKind::UserSeed => ResourceKind::Client,
    }
}

/// Whatever happens to the loop of one kind, a fatal subscription error
/// included, the loop of the other kind is as it was, and takes its next
/// input exactly as it would have without it.
pub proof fn kinds_are_isolated(
    supervisor: SupervisorView,
    kind: ResourceKind,
    input: LoopInputView,
    next: LoopInputView,
)
    ensures
        ({
            let after = supervise_view(supervisor, kind, input).0;
            let other = other_kind(kind);
            &&& after.of(other) == supervisor.of(other)
            &&& supervise_view(after, other, next).1 == supervise_view(supervisor, other, next).1
            &&& supervise_view(after, other, next).0.of(other) == supervise_view(
                supervisor,
                other,
                next,
            ).0.of(other)
        }),
{
}

/// A fatal subscription error on the loop of one kind ends that loop and
/// leaves the process up while the other loop runs: the events of the
/// other kind are still delivered, each as what the collector makes of it.
pub proof fn failed_kind_leaves_the_other_running(
    supervisor: SupervisorView,
    kind: ResourceKind,
    event: WatchEventView,
)
    requires
        supervisor.of(kind).state is Running,
        supervisor.of(other_kind(kind)).state is Running,
    ensures
        ({
            let failed = supervise_view(supervisor, kind, LoopInputView::StreamFailed).0;
            let refused = supervise_view(supervisor, kind, LoopInputView::SubscribeFailed).0;
            let worn_out = supervise_view(supervisor, kind, LoopInputView::StreamError).0;
            let other = other_kind(kind);
            &&& failed == refused
            &&& failed.of(kind).state is Failed
            &&& supervisor.of(kind).state->errors >= supervisor.of(kind).policy.max_retries
                ==> worn_out == failed
            &&& failed.exit_code() is None
            &&& supervise_view(failed, other, LoopInputView::Event(event)).1 == deliver_view(
                intake_view(supervisor.of(other).listed, event).1,
            )
        }),
{
}

/// The process exits with a failure only where every loop has failed for
/// good.
pub proof fn failure_exit_needs_every_loop_failed(supervisor: SupervisorView)
    ensures
        supervisor.exit_code() == Some(1u8) <==> supervisor.client.state is Failed
            && supervisor.user_seed.state is Failed,
        supervisor.exit_code() is Some <==> supervisor.ended(),
{
}

} // verus!
