use auth_controller::reconciler::{
    Cause, ErrorClass, Operation, ReconcileEvent, Report, Verdict,
};
use auth_controller::resources::{
    Client, ClientSpec, DeclaredResource, ResourceKind, UserSeed, UserSeedSpec,
};
use auth_controller::supervisor::{
    Backoff, KindLoop, LoopAction, LoopInput, LoopState, Policy, Supervisor,
};
use auth_controller::watch::{Collector, Intake, WatchEvent};

fn client(name: &str) -> DeclaredResource {
    DeclaredResource::Client(Client {
        name: Some(name.to_string()),
        spec: ClientSpec { display_name: name.to_uppercase(), callback_url: "cb".to_string() },
    })
}

fn seed(name: Option<&str>) -> DeclaredResource {
    DeclaredResource::UserSeed(UserSeed {
        name: name.map(|n| n.to_string()),
        spec: UserSeedSpec { email: "someone@example.org".to_string() },
        status: None,
    })
}

fn backoff() -> Backoff {
    Backoff { initial_secs: 1, max_secs: 60 }
}

fn policy() -> Policy {
    Policy { backoff: backoff(), max_retries: 2, resync_secs: 60 }
}

fn running(attempt: u32, errors: u32) -> LoopState {
    LoopState::Running { attempt, errors }
}

#[test]
fn single_events_pass_through_in_order() {
    let mut collector = Collector::new();
    assert_eq!(
        collector.accept(WatchEvent::Apply(client("a"))),
        Intake::Event(ReconcileEvent::Upsert(client("a")))
    );
    assert_eq!(
        collector.accept(WatchEvent::Delete(client("a"))),
        Intake::Event(ReconcileEvent::Delete(ResourceKind::Client, "a".to_string()))
    );
    assert_eq!(
        collector.accept(WatchEvent::Apply(client("b"))),
        Intake::Event(ReconcileEvent::Upsert(client("b")))
    );
    assert_eq!(collector.len(), 0);
}

#[test]
fn deletion_without_a_name_is_rejected() {
    let mut collector = Collector::new();
    assert_eq!(
        collector.accept(WatchEvent::Delete(seed(None))),
        Intake::Rejected(Report {
            kind: ResourceKind::UserSeed,
            name: None,
            verdict: Verdict::Failed { operation: Operation::Validate, cause: Cause::NoName },
        })
    );
}

#[test]
fn listing_is_gathered_into_one_resync() {
    let mut collector = Collector::new();
    assert_eq!(collector.accept(WatchEvent::Init), Intake::Nothing);
    assert_eq!(collector.accept(WatchEvent::InitApply(client("a"))), Intake::Nothing);
    assert_eq!(collector.accept(WatchEvent::InitApply(client("b"))), Intake::Nothing);
    assert_eq!(collector.len(), 2);
    assert_eq!(
        collector.accept(WatchEvent::InitDone),
        Intake::Event(ReconcileEvent::Resync(vec![client("a"), client("b")]))
    );
    assert_eq!(collector.len(), 0);
    assert_eq!(
        collector.accept(WatchEvent::InitDone),
        Intake::Event(ReconcileEvent::Resync(vec![]))
    );
}

#[test]
fn new_listing_drops_an_unfinished_one() {
    let mut collector = Collector::new();
    collector.accept(WatchEvent::Init);
    collector.accept(WatchEvent::InitApply(client("stale")));
    collector.accept(WatchEvent::Init);
    collector.accept(WatchEvent::InitApply(client("fresh")));
    assert_eq!(
        collector.accept(WatchEvent::InitDone),
        Intake::Event(ReconcileEvent::Resync(vec![client("fresh")]))
    );
}

#[test]
fn single_event_during_a_listing_leaves_the_listing_alone() {
    let mut collector = Collector::new();
    collector.accept(WatchEvent::Init);
    collector.accept(WatchEvent::InitApply(client("a")));
    assert_eq!(
        collector.accept(WatchEvent::Apply(client("z"))),
        Intake::Event(ReconcileEvent::Upsert(client("z")))
    );
    assert_eq!(
        collector.accept(WatchEvent::InitDone),
        Intake::Event(ReconcileEvent::Resync(vec![client("a")]))
    );
}

#[test]
fn backoff_doubles_up_to_the_longest_wait() {
    let policy = backoff();
    let waits: Vec<u64> = (0u32..9).map(|attempt| policy.delay(attempt)).collect();
    assert_eq!(waits, vec![1, 2, 4, 8, 16, 32, 60, 60, 60]);
    assert_eq!(policy.delay(u32::MAX), 60);
}

#[test]
fn backoff_at_the_edges() {
    assert_eq!(Backoff { initial_secs: 0, max_secs: 60 }.delay(0), 0);
    assert_eq!(Backoff { initial_secs: 0, max_secs: 60 }.delay(u32::MAX), 0);
    assert_eq!(Backoff { initial_secs: 90, max_secs: 60 }.delay(0), 60);
    assert_eq!(Backoff { initial_secs: 90, max_secs: 60 }.delay(5), 60);
    assert_eq!(Backoff { initial_secs: 5, max_secs: 5 }.delay(3), 5);
    assert_eq!(Backoff { initial_secs: 3, max_secs: 0 }.delay(7), 0);
    let huge = Backoff { initial_secs: u64::MAX / 2 + 1, max_secs: u64::MAX };
    assert_eq!(huge.delay(0), u64::MAX / 2 + 1);
    assert_eq!(huge.delay(1), u64::MAX);
    assert_eq!(huge.delay(2), u64::MAX);
    let exact = Backoff { initial_secs: 15, max_secs: 60 };
    assert_eq!(exact.delay(1), 30);
    assert_eq!(exact.delay(2), 60);
    assert_eq!(exact.delay(3), 60);
}

#[test]
fn loop_subscribes_polls_and_delivers() {
    let mut kind_loop = KindLoop::new(ResourceKind::Client, policy());
    assert_eq!(kind_loop.kind(), ResourceKind::Client);
    assert_eq!(kind_loop.state(), running(0, 0));
    assert_eq!(kind_loop.handle(LoopInput::Start), LoopAction::Subscribe { after_secs: 0 });
    assert_eq!(kind_loop.handle(LoopInput::Subscribed), LoopAction::Poll);
    assert_eq!(kind_loop.handle(LoopInput::Event(WatchEvent::Init)), LoopAction::Poll);
    assert_eq!(
        kind_loop.handle(LoopInput::Event(WatchEvent::InitApply(client("a")))),
        LoopAction::Poll
    );
    assert_eq!(
        kind_loop.handle(LoopInput::Event(WatchEvent::InitDone)),
        LoopAction::Reconcile(ReconcileEvent::Resync(vec![client("a")]))
    );
    assert_eq!(
        kind_loop.handle(LoopInput::Event(WatchEvent::Apply(client("b")))),
        LoopAction::Reconcile(ReconcileEvent::Upsert(client("b")))
    );
    assert_eq!(
        kind_loop.handle(LoopInput::Event(WatchEvent::Delete(seed(None)))),
        LoopAction::Reject(Report {
            kind: ResourceKind::UserSeed,
            name: None,
            verdict: Verdict::Failed { operation: Operation::Validate, cause: Cause::NoName },
        })
    );
    assert_eq!(kind_loop.failure(), None);
}

#[test]
fn ended_stream_is_subscribed_to_again_with_growing_waits() {
    let mut kind_loop = KindLoop::new(ResourceKind::UserSeed, policy());
    kind_loop.handle(LoopInput::Start);
    kind_loop.handle(LoopInput::Subscribed);
    assert_eq!(kind_loop.handle(LoopInput::StreamEnded), LoopAction::Subscribe { after_secs: 1 });
    assert_eq!(kind_loop.state(), running(1, 0));
    kind_loop.handle(LoopInput::Subscribed);
    assert_eq!(kind_loop.handle(LoopInput::StreamEnded), LoopAction::Subscribe { after_secs: 2 });
    kind_loop.handle(LoopInput::Subscribed);
    assert_eq!(kind_loop.handle(LoopInput::StreamEnded), LoopAction::Subscribe { after_secs: 4 });
    kind_loop.handle(LoopInput::Subscribed);
    kind_loop.handle(LoopInput::Event(WatchEvent::Apply(seed(Some("ada")))));
    assert_eq!(kind_loop.state(), running(0, 0));
    assert_eq!(kind_loop.handle(LoopInput::StreamEnded), LoopAction::Subscribe { after_secs: 1 });
}

#[test]
fn failed_subscription_ends_the_loop_for_good() {
    let mut kind_loop = KindLoop::new(ResourceKind::Client, policy());
    kind_loop.handle(LoopInput::Start);
    assert_eq!(kind_loop.handle(LoopInput::SubscribeFailed), LoopAction::Fail);
    assert_eq!(kind_loop.state(), LoopState::Failed);
    assert_eq!(kind_loop.failure(), Some(ErrorClass::FatalSubscription));
    assert_eq!(kind_loop.handle(LoopInput::Subscribed), LoopAction::Fail);
    assert_eq!(
        kind_loop.handle(LoopInput::Event(WatchEvent::Apply(client("a")))),
        LoopAction::Fail
    );
    assert_eq!(kind_loop.handle(LoopInput::Shutdown), LoopAction::Fail);
    assert_eq!(kind_loop.state(), LoopState::Failed);
}

#[test]
fn shutdown_stops_a_loop_and_nothing_is_subscribed_after_it() {
    let mut kind_loop = KindLoop::new(ResourceKind::Client, policy());
    kind_loop.handle(LoopInput::Start);
    kind_loop.handle(LoopInput::Subscribed);
    assert_eq!(kind_loop.handle(LoopInput::Shutdown), LoopAction::Stop);
    assert_eq!(kind_loop.state(), LoopState::Stopped);
    assert_eq!(kind_loop.handle(LoopInput::StreamEnded), LoopAction::Stop);
    assert_eq!(
        kind_loop.handle(LoopInput::Event(WatchEvent::Apply(client("a")))),
        LoopAction::Stop
    );
    assert_eq!(kind_loop.failure(), None);
}

#[test]
fn fatal_error_on_clients_does_not_stop_user_seeds() {
    let mut supervisor = Supervisor::new(policy());
    for kind in [ResourceKind::Client, ResourceKind::UserSeed] {
        assert_eq!(supervisor.handle(kind, LoopInput::Start), LoopAction::Subscribe { after_secs: 0 });
        assert_eq!(supervisor.handle(kind, LoopInput::Subscribed), LoopAction::Poll);
    }
    assert_eq!(supervisor.handle(ResourceKind::Client, LoopInput::StreamFailed), LoopAction::Fail);
    assert_eq!(supervisor.state(ResourceKind::Client), LoopState::Failed);
    assert_eq!(supervisor.state(ResourceKind::UserSeed), running(0, 0));
    assert_eq!(supervisor.exit_code(), None);
    assert_eq!(
        supervisor.handle(
            ResourceKind::UserSeed,
            LoopInput::Event(WatchEvent::Apply(seed(Some("ada"))))
        ),
        LoopAction::Reconcile(ReconcileEvent::Upsert(seed(Some("ada"))))
    );
    assert_eq!(
        supervisor.handle(
            ResourceKind::UserSeed,
            LoopInput::Event(WatchEvent::Delete(seed(Some("ada"))))
        ),
        LoopAction::Reconcile(ReconcileEvent::Delete(ResourceKind::UserSeed, "ada".to_string()))
    );
    assert_eq!(supervisor.exit_code(), None);
}

#[test]
fn process_fails_only_when_every_loop_has_failed() {
    let mut supervisor = Supervisor::new(policy());
    assert_eq!(supervisor.exit_code(), None);
    supervisor.handle(ResourceKind::UserSeed, LoopInput::SubscribeFailed);
    assert_eq!(supervisor.exit_code(), None);
    supervisor.handle(ResourceKind::Client, LoopInput::StreamFailed);
    assert_eq!(supervisor.exit_code(), Some(1));
}

#[test]
fn process_ends_cleanly_after_shutdown() {
    let mut supervisor = Supervisor::new(policy());
    supervisor.handle(ResourceKind::Client, LoopInput::Shutdown);
    assert_eq!(supervisor.exit_code(), None);
    supervisor.handle(ResourceKind::UserSeed, LoopInput::Shutdown);
    assert_eq!(supervisor.exit_code(), Some(0));
    let mut mixed = Supervisor::new(policy());
    mixed.handle(ResourceKind::Client, LoopInput::SubscribeFailed);
    mixed.handle(ResourceKind::UserSeed, LoopInput::Shutdown);
    assert_eq!(mixed.exit_code(), Some(0));
}

#[test]
fn failures_of_the_watch_are_borne_as_far_as_the_policy_allows() {
    let mut kind_loop = KindLoop::new(ResourceKind::Client, policy());
    kind_loop.handle(LoopInput::Start);
    kind_loop.handle(LoopInput::Subscribed);
    assert_eq!(kind_loop.handle(LoopInput::StreamError), LoopAction::Poll);
    assert_eq!(kind_loop.state(), running(0, 1));
    assert_eq!(kind_loop.handle(LoopInput::StreamError), LoopAction::Poll);
    assert_eq!(kind_loop.state(), running(0, 2));
    assert_eq!(kind_loop.handle(LoopInput::StreamError), LoopAction::Fail);
    assert_eq!(kind_loop.state(), LoopState::Failed);
    assert_eq!(kind_loop.failure(), Some(ErrorClass::FatalSubscription));
}

#[test]
fn an_event_clears_the_count_of_failures() {
    let mut kind_loop = KindLoop::new(ResourceKind::Client, policy());
    kind_loop.handle(LoopInput::StreamError);
    kind_loop.handle(LoopInput::StreamError);
    kind_loop.handle(LoopInput::Event(WatchEvent::Init));
    assert_eq!(kind_loop.state(), running(0, 0));
    assert_eq!(kind_loop.handle(LoopInput::StreamError), LoopAction::Poll);
    assert_eq!(kind_loop.handle(LoopInput::StreamEnded), LoopAction::Subscribe { after_secs: 1 });
    assert_eq!(kind_loop.state(), running(1, 1));
}

#[test]
fn without_retries_the_first_failure_is_fatal() {
    let strict = Policy { backoff: backoff(), max_retries: 0, resync_secs: 60 };
    let mut kind_loop = KindLoop::new(ResourceKind::UserSeed, strict);
    assert_eq!(kind_loop.handle(LoopInput::StreamError), LoopAction::Fail);
    assert_eq!(kind_loop.state(), LoopState::Failed);
}

#[test]
fn loops_that_ran_apart_are_judged_together() {
    let mut clients = KindLoop::new(ResourceKind::Client, policy());
    let mut seeds = KindLoop::new(ResourceKind::UserSeed, policy());
    clients.handle(LoopInput::SubscribeFailed);
    assert_eq!(
        seeds.handle(LoopInput::Event(WatchEvent::Apply(seed(Some("ada"))))),
        LoopAction::Reconcile(ReconcileEvent::Upsert(seed(Some("ada"))))
    );
    seeds.handle(LoopInput::StreamFailed);
    let supervisor = Supervisor::of(clients, seeds);
    assert_eq!(supervisor.state(ResourceKind::Client), LoopState::Failed);
    assert_eq!(supervisor.exit_code(), Some(1));
}

#[test]
fn due_resync_reconciles_everything_that_is_known() {
    let mut kind_loop = KindLoop::new(ResourceKind::Client, policy());
    kind_loop.handle(LoopInput::Start);
    kind_loop.handle(LoopInput::Subscribed);
    kind_loop.handle(LoopInput::StreamEnded);
    assert_eq!(
        kind_loop.handle(LoopInput::ResyncDue(vec![client("a"), client("b")])),
        LoopAction::Reconcile(ReconcileEvent::Resync(vec![client("a"), client("b")]))
    );
    assert_eq!(kind_loop.state(), running(1, 0));
    kind_loop.handle(LoopInput::Shutdown);
    assert_eq!(kind_loop.handle(LoopInput::ResyncDue(vec![client("a")])), LoopAction::Stop);
}
