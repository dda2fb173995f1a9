//! The watch on the control plane, brought into the form in which it is
//! reconciled.
//!
//! A watch yields additions, modifications and deletions one by one, and now
//! and then starts over with a full listing: a start mark, the listed
//! resources, an end mark. The [`Collector`] passes the single events on as
//! they come and gathers each listing into one resync. It yields at most one
//! event for each one that it takes, so the order of the watch is kept.

use crate::reconciler::{
    Cause, Operation, ReconcileEvent, ReconcileEventView, Report, ReportView, Verdict,
};
use crate::resources::{declared_views, DeclaredResource, DeclaredView};
use vstd::prelude::*;

verus! {

/// What a watch on the resources of one kind yields.
#[derive(Debug, PartialEq, Eq)]
pub enum WatchEvent {
    /// A resource was added or modified.
    Apply(DeclaredResource),
    /// A resource was deleted.
    Delete(DeclaredResource),
    /// The watch starts over: a listing follows.
    Init,
    /// One resource of the listing.
    InitApply(DeclaredResource),
    /// The listing is complete.
    InitDone,
}

pub enum WatchEventView {
    Apply(DeclaredView),
    Delete(DeclaredView),
    Init,
    InitApply(DeclaredView),
    InitDone,
}

impl View for WatchEvent {
    type V = WatchEventView;

    open spec fn view(&self) -> WatchEventView {
        match self {
            WatchEvent::Apply(d) => WatchEventView::Apply(d@),
            WatchEvent::Delete(d) => WatchEventView::Delete(d@),
            WatchEvent::Init => WatchEventView::Init,
            WatchEvent::InitApply(d) => WatchEventView::InitApply(d@),
            WatchEvent::InitDone => WatchEventView::InitDone,
        }
    }
}

/// What the collector makes of one watch event.
#[derive(Debug, PartialEq, Eq)]
pub enum Intake {
    /// This is to be reconciled.
    Event(ReconcileEvent),
    /// Nothing yet: the event was part of a listing that is not complete.
    Nothing,
    /// The event is malformed and was dropped: log this.
    Rejected(Report),
}

pub enum IntakeView {
    Event(ReconcileEventView),
    Nothing,
    Rejected(ReportView),
}

impl View for Intake {
    type V = IntakeView;

    open spec fn view(&self) -> IntakeView {
        match self {
            Intake::Event(e) => IntakeView::Event(e@),
            Intake::Nothing => IntakeView::Nothing,
            Intake::Rejected(r) => IntakeView::Rejected(r@),
        }
    }
}

/// What the collector holds after a watch event, and what it makes of the
/// event. `listed` is the listing gathered so far.
///
/// - An addition or modification is an upsert.
/// - A deletion is a delete by name; of a resource without a name it is
///   rejected as malformed.
/// - The start of a listing empties what was gathered, each listed
///   resource is added to it, and its end yields all of it as one resync.
pub open spec fn intake_view(listed: Seq<DeclaredView>, event: WatchEventView) -> (
    Seq<DeclaredView>,
    IntakeView,
) {
    match event {
        WatchEventView::Apply(d) => (listed, IntakeView::Event(ReconcileEventView::Upsert(d))),
        WatchEventView::Delete(d) => match d.name() {
            Some(name) => (
                listed,
                IntakeView::Event(ReconcileEventView::Delete(d.kind(), name)),
            ),
            None => (
                listed,
                IntakeView::Rejected(
                    ReportView {
                        kind: d.kind(),
                        name: None,
                        verdict: Verdict::Failed {
                            operation: Operation::Validate,
                            cause: Cause::NoName,
                        },
                    },
                ),
            ),
        },
        WatchEventView::Init => (Seq::empty(), IntakeView::Nothing),
        WatchEventView::InitApply(d) => (listed.push(d), IntakeView::Nothing),
        WatchEventView::InitDone => (
            Seq::empty(),
            IntakeView::Event(ReconcileEventView::Resync(listed)),
        ),
    }
}

/// Gathers the listings of a watch.
#[derive(Debug)]
pub struct Collector {
    listed: Vec<DeclaredResource>,
}

impl View for Collector {
    type V = Seq<DeclaredView>;

    closed spec fn view(&self) -> Seq<DeclaredView> {
        declared_views(self.listed@)
    }
}

impl Collector {
    /// A collector that has gathered nothing.
    pub fn new() -> (r: Collector)
        ensures
            r@ == Seq::<DeclaredView>::empty(),
    {
        let collector = Collector { listed: Vec::new() };
        assert(collector@ =~= Seq::<DeclaredView>::empty());
        collector
    }

    /// How many resources of a listing have been gathered.
    pub fn len(&self) -> (r: usize)
        ensures
            r == self@.len(),
    {
        self.listed.len()
    }

    /// Takes one event of the watch.
    pub fn accept(&mut self, event: WatchEvent) -> (r: Intake)
        ensures
            (final(self)@, r@) == intake_view(old(self)@, event@),
    {
        match event {
            WatchEvent::Apply(d) => Intake::Event(ReconcileEvent::Upsert(d)),
            WatchEvent::Delete(d) => {
                let kind = d.kind();
                match d.name() {
                    Some(name) => Intake::Event(ReconcileEvent::Delete(kind, name.clone())),
                    None => Intake::Rejected(
                        Report {
                            kind,
                            name: None,
                            verdict: Verdict::Failed {
                                operation: Operation::Validate,
                                cause: Cause::NoName,
                            },
                        },
                    ),
                }
            },
            WatchEvent::Init => {
                self.listed.clear();
                assert(self@ =~= Seq::<DeclaredView>::empty());
                Intake::Nothing
            },
            WatchEvent::InitApply(d) => {
                self.listed.push(d);
                assert(self@ =~= old(self)@.push(d@));
                Intake::Nothing
            },
            WatchEvent::InitDone => {
                let mut listed: Vec<DeclaredResource> = Vec::new();
                core::mem::swap(&mut self.listed, &mut listed);
                assert(self@ =~= Seq::<DeclaredView>::empty());
                Intake::Event(ReconcileEvent::Resync(listed))
            },
        }
    }
}

} // verus!
