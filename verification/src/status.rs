//! Writing back what was observed: once a resource has been written to the
//! authorization service, its status in the control plane is marked so.
//!
//! A patch names the status and nothing else, so it cannot undo an edit of
//! the desired fields that was made in the meantime.

use crate::resources::{ResourceKind, UserSeed, UserSeedStatus, UserSeedView};
use vstd::prelude::*;

verus! {

/// A partial update of one resource's status.
#[derive(Debug, PartialEq, Eq)]
pub struct StatusPatch {
    pub kind: ResourceKind,
    pub name: String,
    pub status: UserSeedStatus,
}

pub struct StatusPatchView {
    pub kind: ResourceKind,
    pub name: Seq<char>,
    pub status: UserSeedStatus,
}

impl View for StatusPatch {
    type V = StatusPatchView;

    open spec fn view(&self) -> StatusPatchView {
        StatusPatchView { kind: self.kind, name: self.name@, status: self.status }
    }
}

impl StatusPatchView {
    /// The user seed as the control plane holds it once the patch is
    /// applied: the status is replaced, the rest is as it was.
    pub open spec fn applied(self, seed: UserSeedView) -> UserSeedView {
        UserSeedView { name: seed.name, spec: seed.spec, status: Some(self.status) }
    }
}

/// The patch that marks the resource of that kind and name as synchronised,
/// where the kind carries a status.
pub open spec fn mark_synced_view(kind: ResourceKind, name: Seq<char>) -> Option<StatusPatchView> {
    if kind.carries_status() {
        Some(StatusPatchView { kind, name, status: UserSeedStatus { seeded: true } })
    } else {
        None
    }
}

/// Whether the control plane has the user seed down as written to the
/// authorization service. A seed without a status is not yet synchronised.
pub open spec fn synced_view(seed: UserSeedView) -> bool {
    seed.status == Some(UserSeedStatus { seeded: true })
}

/// The patch that marks the user seed of that name as seeded.
pub fn set_user_seeded(name: &str) -> (r: StatusPatch)
    ensures
        Some(r@) == mark_synced_view(ResourceKind::UserSeed, name@),
{
    StatusPatch {
        kind: ResourceKind::UserSeed,
        name: name.to_owned(),
        status: UserSeedStatus { seeded: true },
    }
}

/// The patch that marks the resource of that kind and name as synchronised;
/// none for a kind that carries no status.
pub fn mark_synced(kind: ResourceKind, name: &str) -> (r: Option<StatusPatch>)
    ensures
        match r {
            Some(patch) => Some(patch@) == mark_synced_view(kind, name@),
            None => mark_synced_view(kind, name@) is None,
        },
{
    match kind {
        ResourceKind::Client => None,
        ResourceKind::UserSeed => Some(set_user_seeded(name)),
    }
}

/// Whether the control plane has the user seed down as written to the
/// authorization service.
pub fn is_synced(seed: &UserSeed) -> (r: bool)
    ensures
        r == synced_view(seed@),
{
    match seed.status {
        Some(status) => status.seeded,
        None => false,
    }
}

impl StatusPatch {
    /// The user seed with this patch applied to it.
    pub fn apply(&self, seed: UserSeed) -> (r: UserSeed)
        ensures
            r@ == self@.applied(seed@),
    {
        UserSeed { name: seed.name, spec: seed.spec, status: Some(self.status) }
    }
}

/// A patch that marks a seed leaves it synchronised and changes neither its
/// name nor any desired field.
pub proof fn patch_touches_status_only(name: Seq<char>, seed: UserSeedView)
    ensures
        mark_synced_view(ResourceKind::UserSeed, name) matches Some(patch) && {
            &&& synced_view(patch.applied(seed))
            &&& patch.applied(seed).spec == seed.spec
            &&& patch.applied(seed).name == seed.name
        },
{
}

} // verus!
